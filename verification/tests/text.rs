use amp_lib::text::{ends_with, equals, occurs, remove_all};

#[test]
fn occurs_looks_at_one_place() {
    assert!(occurs("songs/gen/a.txt", 6, "gen/"));
    assert!(!occurs("songs/gen/a.txt", 5, "gen/"));
    assert!(occurs("abc", 0, "abc"));
    assert!(occurs("abc", 3, ""));
    assert!(!occurs("abc", 4, ""));
    assert!(!occurs("abc", 1, "bcd"));
    assert!(!occurs("abc", usize::MAX, "a"));
    assert!(occurs("\u{e9}t\u{e9}", 2, "\u{e9}"));
}

#[test]
fn ends_with_matches_std() {
    let texts = ["", "a", ".mid", "song.mid", "song.midi", "mid", "x.MID", "\u{1F941}.mid", "a.txt.bin"];
    let suffixes = ["", ".mid", "mid", ".txt.bin", ".bin", "a", "\u{1F941}.mid"];
    for t in texts {
        for s in suffixes {
            assert_eq!(ends_with(t, s), t.ends_with(s), "{:?} {:?}", t, s);
        }
    }
}

#[test]
fn equals_matches_std() {
    let texts = ["", "BANK", "bank", "BANK ", "BAN", "BANKS", "\u{e9}", "e"];
    for a in texts {
        for b in texts {
            assert_eq!(equals(a, b), a == b, "{:?} {:?}", a, b);
        }
    }
}

#[test]
fn remove_all_takes_out_every_occurrence() {
    assert_eq!(remove_all("songs/gen/a.txt", "gen/"), "songs/a.txt");
    assert_eq!(remove_all("gen/gen/a", "gen/"), "a");
    assert_eq!(remove_all("ggen/en/a", "gen/"), "gen/a");
    assert_eq!(remove_all("abc", "gen/"), "abc");
    assert_eq!(remove_all("", "gen/"), "");
    assert_eq!(remove_all("gen/", "gen/"), "");
    assert_eq!(remove_all("gen", "gen/"), "gen");
    assert_eq!(remove_all("abc", ""), "abc");
    assert_eq!(remove_all("aaa", "aa"), "a");
}

#[test]
fn remove_all_matches_std() {
    let texts = ["", "a", "aa", "aaa", "aaaa", "abab", "ababa", "gen/x/gen/y", "xgen/", "\u{e9}a\u{e9}", "ggen/en/"];
    let pats = ["a", "aa", "ab", "aba", "gen/", "\u{e9}", "x", ""];
    for t in texts {
        for p in pats {
            assert_eq!(remove_all(t, p), t.replace(p, ""), "{:?} {:?}", t, p);
        }
    }
}
