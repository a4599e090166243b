use sango::nickname::{extract_nickname, judge_nickname, nickname_pattern, sanitize_nickname};
use sango::nickname::{NicknameResult, MAX_NICKNAME_LENGTH, ZERO_WIDTH_SPACE};

const Z: &str = "\u{200b}";

fn kept(name: &str) -> String {
    sanitize_nickname(name).expect("kept")
}

#[test]
fn sanitize_defuses_a_mention() {
    assert_eq!(sanitize_nickname("@user"), Some(format!("@{Z}user")));
}

#[test]
fn sanitize_leaves_a_plain_name_alone() {
    assert_eq!(kept("ねこ"), "ねこ");
    assert_eq!(kept("a:b/c]d(e"), "a:b/c]d(e");
    assert_eq!(kept(":/"), ":/");
    assert_eq!(kept("//:"), "//:");
}

#[test]
fn sanitize_defuses_every_markup_trigger() {
    assert_eq!(kept("<center>"), format!("<{Z}center>"));
    assert_eq!(kept("$[x y]"), format!("${Z}[x y]"));
    assert_eq!(kept("#tag"), format!("#{Z}tag"));
    assert_eq!(kept("**bold**"), format!("*{Z}*{Z}bold*{Z}*{Z}"));
    assert_eq!(kept("<$#@*"), format!("<{Z}${Z}#{Z}@{Z}*{Z}"));
    assert_eq!(kept("a@"), format!("a@{Z}"));
}

#[test]
fn sanitize_breaks_links() {
    assert_eq!(kept("https://example.org"), format!("https:{Z}//example.org"));
    assert_eq!(kept("[a](b)"), format!("[a]{Z}(b)"));
    assert_eq!(kept("://://"), format!(":{Z}//:{Z}//"));
    assert_eq!(kept(":///"), format!(":{Z}///"));
    assert_eq!(kept("]()"), format!("]{Z}()"));
    assert_eq!(kept("](]("), format!("]{Z}(]{Z}("));
    assert_eq!(kept("]://("), format!("]:{Z}//("));
}

#[test]
fn sanitize_takes_out_directional_controls() {
    let controls = [
        '\u{061c}', '\u{200e}', '\u{200f}', '\u{202a}', '\u{202b}', '\u{202c}', '\u{202d}',
        '\u{202e}', '\u{2066}', '\u{2067}', '\u{2068}', '\u{2069}',
    ];
    for c in controls {
        assert_eq!(kept(&format!("a{c}b")), "ab", "{:x}", c as u32);
        assert_eq!(sanitize_nickname(&c.to_string()), None, "{:x}", c as u32);
    }
    // The neighbours of the controls stay.
    assert_eq!(kept("a\u{200d}b"), "a\u{200d}b");
    assert_eq!(kept("a\u{2065}b\u{206a}c\u{2029}d"), "a\u{2065}b\u{206a}c\u{2029}d");
}

#[test]
fn sanitize_takes_controls_out_before_it_guards() {
    // A control between the parts of a mark does not keep the mark from
    // being broken.
    assert_eq!(kept(":\u{202a}//"), format!(":{Z}//"));
    assert_eq!(kept("]\u{200e}("), format!("]{Z}("));
    assert_eq!(kept("https:\u{200e}//x.jp"), format!("https:{Z}//x.jp"));
    assert_eq!(kept("https:/\u{2066}\u{2069}/x.jp"), format!("https:{Z}//x.jp"));
    assert_eq!(kept("[x]\u{202c}(y)"), format!("[x]{Z}(y)"));
    // Nor does it protect a trigger.
    assert_eq!(kept("@\u{202e}x"), format!("@{Z}x"));
}

#[test]
fn sanitized_name_holds_no_link_mark() {
    let names = [
        "https://x.jp",
        "https:\u{200e}//x.jp",
        ":\u{061c}/\u{200f}/",
        "[x](y)",
        "[x]\u{202c}(y)",
        "]\u{202d}\u{202e}(",
        ":://](](://",
    ];
    for name in names {
        let safe = kept(name);
        assert!(!safe.contains("://"), "{:?}", name);
        assert!(!safe.contains("]("), "{:?}", name);
    }
}

#[test]
fn sanitize_refuses_what_leaves_nothing() {
    assert_eq!(sanitize_nickname(""), None);
    assert_eq!(sanitize_nickname("   "), None);
    assert_eq!(sanitize_nickname(" \t\n\u{3000}\u{a0}\u{2003}"), None);
    assert_eq!(sanitize_nickname("\u{202e}\u{2066}"), None);
    assert_eq!(sanitize_nickname(" \u{202e} "), None);
}

#[test]
fn sanitize_keeps_what_is_not_white_space() {
    // A zero-width space is no white space.
    assert_eq!(kept(Z), Z);
    assert_eq!(kept(" a "), " a ");
    assert_eq!(kept("@"), format!("@{Z}"));
    assert_eq!(ZERO_WIDTH_SPACE, '\u{200b}');
}

#[test]
fn sanitized_name_is_inert() {
    let names = ["<a href>", "@a@b", "#x **y** $[z]", "\u{202e}@u\u{202c}", "a<\u{2066}b"];
    let triggers = ['<', '$', '#', '@', '*'];
    for name in names {
        let safe: Vec<char> = kept(name).chars().collect();
        for (i, c) in safe.iter().enumerate() {
            assert!(!('\u{202a}'..='\u{202e}').contains(c), "{}", name);
            assert!(!('\u{2066}'..='\u{2069}').contains(c), "{}", name);
            if triggers.contains(c) {
                assert_eq!(safe.get(i + 1), Some(&'\u{200b}'), "{}", name);
            }
        }
    }
}

#[test]
fn judge_gives_each_verdict() {
    assert_eq!(judge_nickname(None), NicknameResult::NotFound);
    assert_eq!(judge_nickname(Some("1234567890123456")), NicknameResult::TooLong);
    assert_eq!(judge_nickname(Some("   ")), NicknameResult::Invalid);
    assert_eq!(judge_nickname(Some("")), NicknameResult::Invalid);
    assert_eq!(judge_nickname(Some("ねこ")), NicknameResult::Accepted("ねこ".to_string()));
}

#[test]
fn judge_counts_characters_before_the_name_is_made_safe() {
    assert_eq!(MAX_NICKNAME_LENGTH, 15);
    // Fifteen characters of three bytes each.
    let name = "あ".repeat(15);
    assert_eq!(judge_nickname(Some(&name)), NicknameResult::Accepted(name.clone()));
    let name = "あ".repeat(16);
    assert_eq!(judge_nickname(Some(&name)), NicknameResult::TooLong);
    // The safe form may be longer than the limit.
    let name = "@".repeat(15);
    assert_eq!(judge_nickname(Some(&name)), NicknameResult::Accepted(format!("@{Z}").repeat(15)));
    // Controls count, though they are taken out.
    let name = format!("{}{}", "a".repeat(15), '\u{202e}');
    assert_eq!(judge_nickname(Some(&name)), NicknameResult::TooLong);
}

#[test]
fn extract_takes_the_candidate_out_of_the_message() {
    assert_eq!(
        extract_nickname("@bot ねこって呼んで"),
        NicknameResult::Accepted("ねこ".to_string())
    );
    assert_eq!(
        extract_nickname("@bot ねこと呼んで"),
        NicknameResult::Accepted("ねこ".to_string())
    );
    assert_eq!(
        extract_nickname("ねえ @bot@example.org   たま と呼んでね"),
        NicknameResult::Accepted("たま ".to_string())
    );
}

#[test]
fn extract_follows_the_pattern() {
    // Without a blank the mention gives the candidate one character.
    assert_eq!(extract_nickname("@botねこと呼んで"), NicknameResult::Accepted("こ".to_string()));
    // The candidate reaches to the last closing phrase.
    assert_eq!(
        extract_nickname("@bot aって呼んでbと呼んで"),
        NicknameResult::Accepted("aって呼んでb".to_string())
    );
    assert_eq!(nickname_pattern(), r"@\S+\s*(.+)\s*(と呼んで|って呼んで)");
}

#[test]
fn extract_finds_nothing_without_the_form() {
    assert_eq!(extract_nickname("ねこって呼んで"), NicknameResult::NotFound);
    assert_eq!(extract_nickname("@bot ねこ"), NicknameResult::NotFound);
    assert_eq!(extract_nickname("@って呼んで"), NicknameResult::NotFound);
    assert_eq!(extract_nickname(""), NicknameResult::NotFound);
}

#[test]
fn extract_judges_the_candidate() {
    assert_eq!(extract_nickname("@bot 1234567890123456って呼んで"), NicknameResult::TooLong);
    assert_eq!(extract_nickname("@bot \u{202e}\u{202c}と呼んで"), NicknameResult::Invalid);
    // The blank behind the mention is the candidate where nothing else is.
    assert_eq!(extract_nickname("@bot って呼んで"), NicknameResult::Invalid);
    assert_eq!(
        extract_nickname("@bot https://a.bと呼んで"),
        NicknameResult::Accepted(format!("https:{Z}//a.b"))
    );
}
