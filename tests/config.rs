use foamshot::config::{CliArgs, FoamConfig, ImageType, TimeStamp};

fn stamp() -> TimeStamp {
    TimeStamp {
        year: String::from("2024"),
        month: String::from("03"),
        day: String::from("09"),
        hour: String::from("14"),
        minute: String::from("05"),
        second: String::from("59"),
    }
}

fn detect(p: &str) -> (ImageType, String) {
    let mut s = String::from(p);
    let t = FoamConfig::detect_image_type(&mut s);
    (t, s)
}

#[test]
fn time_placeholders_are_replaced() {
    let now = stamp();
    assert_eq!(
        FoamConfig::replace_time_specifiers("shot-%Y-%m-%d-%H-%M-%S.png", &now),
        "shot-2024-03-09-14-05-59.png"
    );
    assert_eq!(FoamConfig::replace_time_specifiers("%x 100% %", &now), "%x 100% %");
    assert_eq!(FoamConfig::replace_time_specifiers("", &now), "");
    assert_eq!(FoamConfig::format_path("/pics/%Y/%m", &now), "/pics/2024/03");
}

#[test]
fn image_type_from_extension() {
    assert_eq!(detect("/a/b.jpg"), (ImageType::Jpg, String::from("/a/b.jpg")));
    assert_eq!(detect("/a/b.JPEG"), (ImageType::Jpg, String::from("/a/b.JPEG")));
    assert_eq!(detect("/a/b.Png"), (ImageType::Png, String::from("/a/b.Png")));
    assert_eq!(detect("/a/b.txt"), (ImageType::Png, String::from("/a/b.png")));
    assert_eq!(detect("/a/shot"), (ImageType::Png, String::from("/a/shot.png")));
    assert_eq!(detect("/a.d/.hidden"), (ImageType::Png, String::from("/a.d/.hidden.png")));
    assert_eq!(detect("/a/"), (ImageType::Png, String::from("/a/screenshot.png")));
    assert_eq!(detect("x.tar.gz"), (ImageType::Png, String::from("x.tar.png")));
}

#[test]
fn collision_names() {
    assert_eq!(FoamConfig::collision_name("shot.png", 0), "shot.png");
    assert_eq!(FoamConfig::collision_name("shot.png", 1), "shot-1.png");
    assert_eq!(FoamConfig::collision_name("shot.jpg", 12), "shot-12.jpg");
    assert_eq!(FoamConfig::collision_name("shot", 3), "shot-3.png");
    assert_eq!(FoamConfig::collision_name("", 4294967295), "foamshot-4294967295.png");
}

#[test]
fn config_from_options() {
    let args = CliArgs {
        path: None,
        name: String::from("x.jpeg"),
        show_cursor: true,
        no_copy: true,
        no_freeze: false,
        full_screen: false,
        edit: true,
        no_notify: false,
    };
    let c = FoamConfig::new(&args, "/home/u/Pictures", "x.jpeg");
    assert_eq!(c.output_path, "/home/u/Pictures/x.jpeg");
    assert_eq!(c.image_type, ImageType::Jpg);
    assert!(c.cursor && !c.auto_copy && c.freeze && !c.full_screen && c.edit && c.allow_notify);
    let d = FoamConfig::new(&args, "/tmp/", "y.bmp");
    assert_eq!(d.output_path, "/tmp/y.png");
    assert_eq!(d.image_type, ImageType::Png);
    let e = FoamConfig::new(&args, "", "z");
    assert_eq!(e.output_path, "z.png");
}
