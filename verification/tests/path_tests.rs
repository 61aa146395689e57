use peeksy::paths::{directory, extension_of, sibling};
use std::path::Path;

fn ext(name: &str) -> Option<String> {
    let cs: Vec<char> = name.chars().collect();
    extension_of(&cs).map(|e| e.iter().collect())
}

#[test]
fn extension_follows_std() {
    for name in [
        "a.png", "a", ".png", ".a.png", "a.", "a.b.c", "..", "...", "..a", "a..b", ".", "",
        "Screenshot 2024-01-01 at 10.00.00.png", "archive.tar.gz", "x.PNG", ".hidden",
    ] {
        let want = Path::new(name).extension().map(|e| e.to_str().unwrap().to_string());
        // `Path` sees no file name in "", "." and "..": the rule on names stands alone there.
        if name.is_empty() || name == "." {
            assert_eq!(ext(name), None);
        } else {
            assert_eq!(ext(name), want, "extension of {:?}", name);
        }
    }
    assert_eq!(ext("a.png"), Some("png".to_string()));
    assert_eq!(ext("a."), Some(String::new()));
    assert_eq!(ext(".png"), None);
    assert_eq!(ext(".."), None);
    assert_eq!(ext("Screenshot 2024-01-01 at 10.00.00.png"), Some("png".to_string()));
}

#[test]
fn directory_is_the_parent_or_dot() {
    assert_eq!(directory("/Users/me/Desktop/a.png"), "/Users/me/Desktop");
    assert_eq!(directory("a.png"), "");
    assert_eq!(directory("/"), ".");
    assert_eq!(directory(""), ".");
    assert_eq!(directory("dir/sub/"), "dir");
}

#[test]
fn sibling_is_in_the_same_directory() {
    assert_eq!(sibling("/Users/me/Desktop/a.png", "b.png"), "/Users/me/Desktop/b.png");
    assert_eq!(sibling("a.png", "b.png"), "b.png");
    assert_eq!(sibling("/a.png", "b.png"), "/b.png");
    assert_eq!(
        Path::new(&sibling("/tmp/x/.Screenshot.png", "Screenshot.png")),
        Path::new("/tmp/x").join("Screenshot.png")
    );
}
