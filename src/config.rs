//! Settings of a run, and the naming of the output file.

use vstd::prelude::*;

verus! {

/// Encoding of the output image.
#[derive(Debug, Clone, Copy, PartialEq, Eq, Structural)]
pub enum ImageType {
    Png,
    Jpg,
}

impl Default for ImageType {
    fn default() -> (r: ImageType)
        ensures
            r == ImageType::Png,
    {
        ImageType::Png
    }
}

/// Settings of a run.
#[derive(Debug, Clone)]
pub struct FoamConfig {
    /// Where the image is written.
    pub output_path: String,
    pub image_type: ImageType,
    /// Capture the pointer too.
    pub cursor: bool,
    /// Hand the image to the clipboard.
    pub auto_copy: bool,
    /// Enter edit mode once a rectangle is drawn.
    pub edit: bool,
    /// Freeze the screen while selecting.
    pub freeze: bool,
    /// Select the output under the pointer without drawing.
    pub full_screen: bool,
    pub allow_notify: bool,
}

/// The current local time, each field as printed for its placeholder
/// (`%Y`, `%m`, `%d`, `%H`, `%M`, `%S`).
#[derive(Debug, Clone)]
pub struct TimeStamp {
    pub year: String,
    pub month: String,
    pub day: String,
    pub hour: String,
    pub minute: String,
    pub second: String,
}

/// The options given on the command line.
#[derive(Debug, Clone)]
pub struct CliArgs {
    /// Directory of the output file.
    pub path: Option<String>,
    /// Name of the output file, with time placeholders.
    pub name: String,
    pub show_cursor: bool,
    pub no_copy: bool,
    pub no_freeze: bool,
    pub full_screen: bool,
    pub edit: bool,
    pub no_notify: bool,
}

/// What placeholder `%c` stands for, if `c` names one.
pub open spec fn placeholder(c: char, t: TimeStamp) -> Option<Seq<char>> {
    if c == 'Y' {
        Some(t.year@)
    } else if c == 'm' {
        Some(t.month@)
    } else if c == 'd' {
        Some(t.day@)
    } else if c == 'H' {
        Some(t.hour@)
    } else if c == 'M' {
        Some(t.minute@)
    } else if c == 'S' {
        Some(t.second@)
    } else {
        None
    }
}

/// `s` with every time placeholder, read from the left, replaced by its field.
pub open spec fn expand_time(s: Seq<char>, t: TimeStamp) -> Seq<char>
    decreases s.len(),
{
    if s.len() == 0 {
        Seq::empty()
    } else if s.len() >= 2 && s[0] == '%' && placeholder(s[1], t) is Some {
        placeholder(s[1], t)->0 + expand_time(s.subrange(2, s.len() as int), t)
    } else {
        seq![s[0]] + expand_time(s.subrange(1, s.len() as int), t)
    }
}

/// Index of the last `c` in `s`, or -1.
pub open spec fn last_index_of(s: Seq<char>, c: char) -> int
    decreases s.len(),
{
    if s.len() == 0 {
        -1
    } else if s.last() == c {
        s.len() - 1
    } else {
        last_index_of(s.drop_last(), c)
    }
}

/// The directory part of a path, up to and including its last `/`.
pub open spec fn dir_part(p: Seq<char>) -> Seq<char> {
    p.subrange(0, last_index_of(p, '/') + 1)
}

/// The file name of a path: what follows its last `/`.
pub open spec fn file_name(p: Seq<char>) -> Seq<char> {
    p.subrange(last_index_of(p, '/') + 1, p.len() as int)
}

/// The file name has an extension: a `.` that is not its first character.
pub open spec fn has_extension(p: Seq<char>) -> bool {
    last_index_of(file_name(p), '.') > 0
}

/// The extension: what follows the file name's last `.`.
pub open spec fn extension(p: Seq<char>) -> Seq<char> {
    let n = file_name(p);
    n.subrange(last_index_of(n, '.') + 1, n.len() as int)
}

/// The file name without its extension.
pub open spec fn file_stem(p: Seq<char>) -> Seq<char> {
    let n = file_name(p);
    if has_extension(p) { n.subrange(0, last_index_of(n, '.')) } else { n }
}

/// `c` is the lower-case ASCII letter or character `l`, in either case.
pub open spec fn ascii_ci_char(c: char, l: char) -> bool {
    c == l || ('a' <= l <= 'z' && c as u32 + 32 == l as u32)
}

/// `s` spells the lower-case word `w`, ignoring ASCII case.
pub open spec fn ascii_ci_eq(s: Seq<char>, w: Seq<char>) -> bool {
    s.len() == w.len() && forall|i: int| 0 <= i < s.len() ==> ascii_ci_char(#[trigger] s[i], w[i])
}

/// The image type a path asks for: JPEG for `jpg` or `jpeg`, PNG for `png`, in any case.
pub open spec fn type_of_path(p: Seq<char>) -> Option<ImageType> {
    if has_extension(p) && (ascii_ci_eq(extension(p), "jpg"@) || ascii_ci_eq(extension(p), "jpeg"@)) {
        Some(ImageType::Jpg)
    } else if has_extension(p) && ascii_ci_eq(extension(p), "png"@) {
        Some(ImageType::Png)
    } else {
        None
    }
}

/// A path whose type is not recognised, renamed to a PNG of the same stem in the same directory.
pub open spec fn png_path(p: Seq<char>) -> Seq<char> {
    dir_part(p) + (if file_name(p).len() == 0 { "screenshot"@ } else { file_stem(p) }) + ".png"@
}

/// The decimal digits of `n`.
pub open spec fn decimal(n: nat) -> Seq<char>
    decreases n,
{
    if n < 10 {
        seq![digit_char(n)]
    } else {
        decimal(n / 10) + seq![digit_char(n % 10)]
    }
}

pub open spec fn digit_char(d: nat) -> char {
    "0123456789"@[d as int]
}

/// The name tried for the `counter`-th collision of `name`: the name itself
/// at 0, else `stem-counter.ext`, with `foamshot` and `png` for a missing stem or extension.
pub open spec fn collision_name_of(name: Seq<char>, counter: nat) -> Seq<char> {
    if counter == 0 {
        name
    } else {
        let stem = if file_name(name).len() == 0 { "foamshot"@ } else { file_stem(name) };
        let ext = if has_extension(name) { extension(name) } else { "png"@ };
        stem + "-"@ + decimal(counter) + "."@ + ext
    }
}

/// `name` placed in directory `dir`.
pub open spec fn joined(dir: Seq<char>, name: Seq<char>) -> Seq<char> {
    if dir.len() == 0 || dir.last() == '/' { dir + name } else { dir + "/"@ + name }
}

proof fn lemma_last_index_prefix(s: Seq<char>, c: char, i: int)
    requires
        0 <= i <= s.len(),
        forall|j: int| i <= j < s.len() ==> s[j] != c,
    ensures
        last_index_of(s, c) == last_index_of(s.subrange(0, i), c),
    decreases s.len(),
{
    if s.len() > i {
        assert(s.drop_last().subrange(0, i) =~= s.subrange(0, i));
        lemma_last_index_prefix(s.drop_last(), c, i);
    } else {
        assert(s.subrange(0, i) =~= s);
    }
}

proof fn lemma_last_index_bounds(s: Seq<char>, c: char)
    ensures
        -1 <= last_index_of(s, c) < s.len(),
        last_index_of(s, c) >= 0 ==> s[last_index_of(s, c)] == c,
    decreases s.len(),
{
    if s.len() > 0 && s.last() != c {
        lemma_last_index_bounds(s.drop_last(), c);
    }
}

/// Index of the last `c` in `s`.
fn find_last(s: &str, c: char) -> (r: Option<usize>)
    ensures
        match r {
            Some(i) => i == last_index_of(s@, c),
            None => last_index_of(s@, c) == -1,
        },
        -1 <= last_index_of(s@, c) < s@.len(),
{
    proof {
        lemma_last_index_bounds(s@, c);
    }
    let n = s.unicode_len();
    let mut i: usize = n;
    while i > 0
        invariant
            i <= n,
            n == s@.len(),
            forall|j: int| i <= j < n ==> s@[j] != c,
        decreases i,
    {
        if s.get_char(i - 1) == c {
            proof {
                lemma_last_index_prefix(s@, c, i as int);
                assert(s@.subrange(0, i as int).last() == c);
            }
            return Some(i - 1);
        }
        i -= 1;
    }
    proof {
        lemma_last_index_prefix(s@, c, 0);
    }
    None
}

/// Whether `s` spells the lower-case ASCII word `w`, ignoring case.
fn eq_ignore_ascii_case(s: &str, w: &str) -> (r: bool)
    ensures
        r == ascii_ci_eq(s@, w@),
{
    let n = s.unicode_len();
    if n != w.unicode_len() {
        return false;
    }
    let mut i: usize = 0;
    while i < n
        invariant
            i <= n,
            n == s@.len() && n == w@.len(),
            forall|j: int| 0 <= j < i ==> ascii_ci_char(#[trigger] s@[j], w@[j]),
        decreases n - i,
    {
        let c = s.get_char(i);
        let l = w.get_char(i);
        let same = c == l || ('a' <= l && l <= 'z' && c as u32 + 32 == l as u32);
        if !same {
            return false;
        }
        i += 1;
    }
    true
}

impl FoamConfig {
    /// `path_str` with every time placeholder replaced by the matching field of `now`.
    pub fn replace_time_specifiers(path_str: &str, now: &TimeStamp) -> (r: String)
        ensures
            r@ == expand_time(path_str@, *now),
    {
        let n = path_str.unicode_len();
        let mut out = String::new();
        let mut i: usize = 0;
        proof {
            assert(path_str@.subrange(0, n as int) =~= path_str@);
            assert(out@ + expand_time(path_str@, *now) =~= expand_time(path_str@, *now));
        }
        while i < n
            invariant
                i <= n,
                n == path_str@.len(),
                out@ + expand_time(path_str@.subrange(i as int, n as int), *now) == expand_time(path_str@, *now),
            decreases n - i,
        {
            let ghost rest = path_str@.subrange(i as int, n as int);
            let c = path_str.get_char(i);
            let mut step: usize = 1;
            if c == '%' && i + 1 < n {
                let d = path_str.get_char(i + 1);
                let field: Option<&String> = if d == 'Y' {
                    Some(&now.year)
                } else if d == 'm' {
                    Some(&now.month)
                } else if d == 'd' {
                    Some(&now.day)
                } else if d == 'H' {
                    Some(&now.hour)
                } else if d == 'M' {
                    Some(&now.minute)
                } else if d == 'S' {
                    Some(&now.second)
                } else {
                    None
                };
                match field {
                    Some(f) => {
                        proof {
                            assert(rest[0] == c && rest[1] == d);
                            assert(rest.subrange(2, rest.len() as int) =~= path_str@.subrange(i + 2, n as int));
                        }
                        out.append(f.as_str());
                        step = 2;
                    },
                    None => {},
                }
            }
            if step == 1 {
                proof {
                    assert(rest[0] == c);
                    assert(rest.subrange(1, rest.len() as int) =~= path_str@.subrange(i + 1, n as int));
                }
                out.append(path_str.substring_char(i, i + 1));
            }
            proof {
                assert(out@ + expand_time(path_str@.subrange((i + step) as int, n as int), *now) == expand_time(path_str@, *now));
            }
            i = i + step;
        }
        proof {
            assert(path_str@.subrange(n as int, n as int) =~= Seq::<char>::empty());
            assert(out@ + Seq::<char>::empty() =~= out@);
        }
        out
    }

    /// A directory path with its time placeholders replaced.
    pub fn format_path(path: &str, now: &TimeStamp) -> (r: String)
        ensures
            r@ == expand_time(path@, *now),
    {
        Self::replace_time_specifiers(path, now)
    }

    /// The image type that `path`'s extension asks for. An extension other
    /// than `jpg`, `jpeg` or `png` (in any case), or none, gives PNG, and
    /// `path` is renamed to a `.png` of the same stem in the same directory.
    pub fn detect_image_type(path: &mut String) -> (r: ImageType)
        ensures
            match type_of_path(old(path)@) {
                Some(t) => r == t && final(path)@ == old(path)@,
                None => r == ImageType::Png && final(path)@ == png_path(old(path)@),
            },
    {
        let p = path.as_str();
        let n = p.unicode_len();
        let slash = find_last(p, '/');
        let start: usize = match slash {
            Some(k) => k + 1,
            None => 0,
        };
        let dir = p.substring_char(0, start);
        let name = p.substring_char(start, n);
        proof {
            assert(name@ == file_name(p@));
            assert(dir@ == dir_part(p@));
        }
        let dot = find_last(name, '.');
        let m = name.unicode_len();
        let (has_ext, dot_at) = match dot {
            Some(k) => (k > 0, k),
            None => (false, 0),
        };
        if has_ext {
            let ext = name.substring_char(dot_at + 1, m);
            proof {
                assert(ext@ == extension(p@));
            }
            if eq_ignore_ascii_case(ext, "jpg") || eq_ignore_ascii_case(ext, "jpeg") {
                return ImageType::Jpg;
            }
            if eq_ignore_ascii_case(ext, "png") {
                return ImageType::Png;
            }
        }
        proof {
            reveal_strlit("screenshot");
            reveal_strlit(".png");
        }
        let mut renamed = String::from_str(dir);
        if m == 0 {
            renamed.append("screenshot");
        } else if has_ext {
            renamed.append(name.substring_char(0, dot_at));
        } else {
            renamed.append(name);
        }
        renamed.append(".png");
        *path = renamed;
        ImageType::Png
    }

    /// The name to try for the `counter`-th time that `filename` is taken.
    pub fn collision_name(filename: &str, counter: u32) -> (r: String)
        ensures
            r@ == collision_name_of(filename@, counter as nat),
    {
        if counter == 0 {
            return String::from_str(filename);
        }
        let n = filename.unicode_len();
        let slash = find_last(filename, '/');
        let start: usize = match slash {
            Some(k) => k + 1,
            None => 0,
        };
        let name = filename.substring_char(start, n);
        proof {
            assert(name@ == file_name(filename@));
            reveal_strlit("foamshot");
            reveal_strlit("png");
            reveal_strlit("-");
            reveal_strlit(".");
        }
        let dot = find_last(name, '.');
        let m = name.unicode_len();
        let (has_ext, dot_at) = match dot {
            Some(k) => (k > 0, k),
            None => (false, 0),
        };
        let mut out = if m == 0 {
            String::from_str("foamshot")
        } else if has_ext {
            String::from_str(name.substring_char(0, dot_at))
        } else {
            String::from_str(name)
        };
        out.append("-");
        let digits = decimal_string(counter);
        out.append(digits.as_str());
        out.append(".");
        if has_ext {
            out.append(name.substring_char(dot_at + 1, m));
        } else {
            out.append("png");
        }
        out
    }

    /// The settings of a run, from the command-line options and the output
    /// file's directory and name, both already settled by the caller.
    pub fn new(args: &CliArgs, dir: &str, name: &str) -> (r: FoamConfig)
        ensures
            ({
                let p = joined(dir@, name@);
                match type_of_path(p) {
                    Some(t) => r.image_type == t && r.output_path@ == p,
                    None => r.image_type == ImageType::Png && r.output_path@ == png_path(p),
                }
            }),
            r.cursor == args.show_cursor,
            r.edit == args.edit,
            r.auto_copy == !args.no_copy,
            r.freeze == !args.no_freeze,
            r.full_screen == args.full_screen,
            r.allow_notify == !args.no_notify,
    {
        let mut output_path = String::from_str(dir);
        let n = dir.unicode_len();
        proof {
            reveal_strlit("/");
        }
        if n > 0 && dir.get_char(n - 1) != '/' {
            output_path.append("/");
        }
        output_path.append(name);
        let image_type = Self::detect_image_type(&mut output_path);
        FoamConfig {
            output_path,
            image_type,
            cursor: args.show_cursor,
            auto_copy: !args.no_copy,
            edit: args.edit,
            freeze: !args.no_freeze,
            full_screen: args.full_screen,
            allow_notify: !args.no_notify,
        }
    }
}

/// The decimal digits of `n`.
fn decimal_string(n: u32) -> (r: String)
    ensures
        r@ == decimal(n as nat),
    decreases n,
{
    proof {
        reveal_strlit("0123456789");
    }
    let digits = "0123456789";
    if n < 10 {
        let d = n as usize;
        String::from_str(digits.substring_char(d, d + 1))
    } else {
        let mut head = decimal_string(n / 10);
        let d = (n % 10) as usize;
        head.append(digits.substring_char(d, d + 1));
        head
    }
}

} // verus!
