use std::path::Path;
use yanu::path::{extension, file_name, join};

fn name(s: &str) -> Option<String> {
    file_name(s)
}

fn ext(s: &str) -> Option<String> {
    extension(s)
}

#[test]
fn file_name_of_a_plain_name() {
    assert_eq!(name("game.nsp"), Some("game.nsp".to_string()));
    assert_eq!(name("notes.txt"), Some("notes.txt".to_string()));
    assert_eq!(name("README"), Some("README".to_string()));
}

#[test]
fn file_name_is_the_last_component() {
    assert_eq!(name("/home/user/game.nsp"), Some("game.nsp".to_string()));
    assert_eq!(name("a/b/c"), Some("c".to_string()));
    assert_eq!(name("./a"), Some("a".to_string()));
    assert_eq!(name("/a"), Some("a".to_string()));
}

#[test]
fn file_name_passes_over_empty_and_dot_components() {
    assert_eq!(name("dir/game.nsp/"), Some("game.nsp".to_string()));
    assert_eq!(name("dir/game.nsp///"), Some("game.nsp".to_string()));
    assert_eq!(name("dir/game.nsp/."), Some("game.nsp".to_string()));
    assert_eq!(name("dir/game.nsp/./"), Some("game.nsp".to_string()));
    assert_eq!(name("dir//game.nsp/././/"), Some("game.nsp".to_string()));
}

#[test]
fn file_name_is_absent_where_nothing_is_named() {
    assert_eq!(name(""), None);
    assert_eq!(name("/"), None);
    assert_eq!(name("//"), None);
    assert_eq!(name("."), None);
    assert_eq!(name("./"), None);
    assert_eq!(name("./."), None);
    assert_eq!(name("/."), None);
}

#[test]
fn file_name_is_absent_behind_a_parent_component() {
    assert_eq!(name(".."), None);
    assert_eq!(name("a/.."), None);
    assert_eq!(name("a/../"), None);
    assert_eq!(name("a/b/../."), None);
}

#[test]
fn file_name_may_consist_of_dots() {
    assert_eq!(name("..."), Some("...".to_string()));
    assert_eq!(name("a/...."), Some("....".to_string()));
    assert_eq!(name(".hidden"), Some(".hidden".to_string()));
    assert_eq!(name("..a"), Some("..a".to_string()));
}

#[test]
fn file_name_keeps_characters_outside_ascii() {
    assert_eq!(name("jeux/épée.nsp"), Some("épée.nsp".to_string()));
    assert_eq!(name("日本/ゲーム.nsp/"), Some("ゲーム.nsp".to_string()));
}

#[test]
fn extension_follows_the_last_dot() {
    assert_eq!(ext("game.nsp"), Some("nsp".to_string()));
    assert_eq!(ext("archive.tar.gz"), Some("gz".to_string()));
    assert_eq!(ext("/x/y.z/game.NSP"), Some("NSP".to_string()));
    assert_eq!(ext("dir/game.nsp/"), Some("nsp".to_string()));
    assert_eq!(ext("a..b"), Some("b".to_string()));
}

#[test]
fn extension_may_be_empty() {
    assert_eq!(ext("game."), Some(String::new()));
    assert_eq!(ext("..."), Some(String::new()));
    assert_eq!(ext("a.."), Some(String::new()));
}

#[test]
fn extension_is_absent_without_a_dot_in_the_name() {
    assert_eq!(ext("game"), None);
    assert_eq!(ext("dir.d/game"), None);
    assert_eq!(ext(""), None);
    assert_eq!(ext("/"), None);
}

#[test]
fn extension_is_absent_where_the_only_dot_leads() {
    assert_eq!(ext(".nsp"), None);
    assert_eq!(ext("dir/.nsp"), None);
    assert_eq!(ext(".hidden"), None);
}

#[test]
fn extension_of_a_hidden_file_with_a_second_dot() {
    assert_eq!(ext(".config.nsp"), Some("nsp".to_string()));
    assert_eq!(ext("..nsp"), Some("nsp".to_string()));
}

#[test]
fn extension_is_absent_where_there_is_no_file_name() {
    assert_eq!(ext(".."), None);
    assert_eq!(ext("game.nsp/.."), None);
    assert_eq!(ext("."), None);
}

#[test]
fn extension_keeps_characters_outside_ascii() {
    assert_eq!(ext("clé.données"), Some("données".to_string()));
}

#[test]
fn join_puts_one_separator_between() {
    assert_eq!(join("cache", "hactool"), "cache/hactool");
    assert_eq!(join("/var/cache/app", "hactool.exe"), "/var/cache/app/hactool.exe");
}

#[test]
fn join_adds_no_separator_behind_one() {
    assert_eq!(join("cache/", "hactool"), "cache/hactool");
    assert_eq!(join("/", "hactool"), "/hactool");
}

#[test]
fn join_with_an_empty_directory_gives_the_name() {
    assert_eq!(join("", "hactool"), "hactool");
}

#[test]
fn join_with_a_rooted_name_gives_the_name() {
    assert_eq!(join("cache", "/usr/bin/hactool"), "/usr/bin/hactool");
}

#[test]
fn join_with_an_empty_name_ends_in_a_separator() {
    assert_eq!(join("cache", ""), "cache/");
    assert_eq!(join("cache/", ""), "cache/");
    assert_eq!(join("", ""), "");
}

fn samples() -> Vec<&'static str> {
    vec![
        "", "/", "//", ".", "..", "...", "./", "../", "a", "a/", "a//", "a/.", "a/..", "a/./",
        "a/../", "/a", "/a/b", "a/b", "a/b/", "a.b", "a.", ".a", "..a", "a..", "a..b", ".a.b",
        "a/.b", "a/b.c", "a.b/c", "a.b/c.d", "a.b/.", "a.b/..", "a.b/./.", "./a.b", "../a.b",
        "/.", "/..", "/.a", "x/.../y", "x/...", "x/..y", "x/y..", "game.nsp", "game.nsp/",
        "dir with space/game one.nsp", "a\\b.nsp", "a/b\\c.tik", "é.ñ", "名前.拡張", "a/./b/./c.d/.",
    ]
}

#[test]
fn file_name_is_that_of_the_standard_library() {
    if std::path::MAIN_SEPARATOR != '/' {
        return;
    }
    for s in samples() {
        let expected = Path::new(s).file_name().map(|n| n.to_str().unwrap().to_string());
        assert_eq!(name(s), expected, "file name of {:?}", s);
    }
}

#[test]
fn extension_is_that_of_the_standard_library() {
    if std::path::MAIN_SEPARATOR != '/' {
        return;
    }
    for s in samples() {
        let expected = Path::new(s).extension().map(|n| n.to_str().unwrap().to_string());
        assert_eq!(ext(s), expected, "extension of {:?}", s);
    }
}

#[test]
fn join_is_that_of_the_standard_library() {
    if std::path::MAIN_SEPARATOR != '/' {
        return;
    }
    for dir in samples() {
        for n in ["hactool", "hactool.exe", "", "/abs", "a/b"] {
            let expected = Path::new(dir).join(n).to_str().unwrap().to_string();
            assert_eq!(join(dir, n), expected, "join of {:?} and {:?}", dir, n);
        }
    }
}

#[test]
fn a_file_name_is_one_component_of_its_path() {
    for s in samples() {
        if let Some(n) = name(s) {
            assert!(!n.is_empty(), "{:?}", s);
            assert!(!n.contains('/'), "{:?}", s);
            assert!(n != "." && n != "..", "{:?}", s);
            assert!(s.contains(n.as_str()), "{:?}", s);
        }
    }
}

#[test]
fn an_extension_ends_its_file_name() {
    for s in samples() {
        if let Some(e) = ext(s) {
            let n = name(s).unwrap();
            assert!(!e.contains('.'), "{:?}", s);
            assert!(n.ends_with(&format!(".{}", e)), "{:?}", s);
            assert!(n.len() > e.len() + 1, "{:?}", s);
        }
    }
}

/// Every string of at most `max` characters out of `alphabet`.
fn strings_over(alphabet: &[char], max: usize) -> Vec<String> {
    let mut all = vec![String::new()];
    let mut last = vec![String::new()];
    for _ in 0..max {
        let mut next = Vec::new();
        for s in &last {
            for c in alphabet {
                let mut t = s.clone();
                t.push(*c);
                next.push(t);
            }
        }
        all.extend(next.iter().cloned());
        last = next;
    }
    all
}

#[test]
fn file_name_and_extension_on_every_short_path() {
    if std::path::MAIN_SEPARATOR != '/' {
        return;
    }
    let paths = strings_over(&['/', '.', 'a', 'n'], 7);
    assert_eq!(paths.len(), 21845);
    for s in &paths {
        let path = Path::new(s);
        let expected = path.file_name().map(|n| n.to_str().unwrap().to_string());
        assert_eq!(name(s), expected, "file name of {:?}", s);
        let expected = path.extension().map(|n| n.to_str().unwrap().to_string());
        assert_eq!(ext(s), expected, "extension of {:?}", s);
    }
}

#[test]
fn join_on_every_short_directory_and_name() {
    if std::path::MAIN_SEPARATOR != '/' {
        return;
    }
    let parts = strings_over(&['/', '.', 'a'], 4);
    for dir in &parts {
        for n in &parts {
            let expected = Path::new(dir).join(n).to_str().unwrap().to_string();
            assert_eq!(join(dir, n), expected, "join of {:?} and {:?}", dir, n);
        }
    }
}
