use insights_runtime_extractor::text::{
    chars_of, contains, contains_chars, ends_with, last_segment_of, matches_at, position_of,
    same_text, split_after, split_on, starts_with,
};
use insights_runtime_extractor::tokens::{
    has_token, position_holding, position_of_either, position_of_prefixed, position_of_token,
};

fn chars(s: &str) -> Vec<char> {
    s.chars().collect()
}

fn tokens(items: &[&str]) -> Vec<String> {
    items.iter().map(|s| s.to_string()).collect()
}

#[test]
fn characters_not_bytes() {
    assert_eq!(chars_of(""), Vec::<char>::new());
    assert_eq!(chars_of("a/b"), vec!['a', '/', 'b']);
    assert_eq!(chars_of("é=ü"), vec!['é', '=', 'ü']);
}

#[test]
fn matching_at_an_index() {
    let text = chars("classpath");
    assert!(matches_at(&text, 0, &chars("class")));
    assert!(matches_at(&text, 5, &chars("path")));
    assert!(!matches_at(&text, 4, &chars("path")));
    assert!(!matches_at(&text, 6, &chars("path")));
    assert!(matches_at(&text, 9, &chars("")));
    assert!(!matches_at(&text, 10, &chars("")));
    assert!(!matches_at(&chars("ab"), 0, &chars("abc")));
    assert!(!matches_at(&text, usize::MAX, &chars("c")));
}

#[test]
fn equal_texts() {
    assert!(same_text("", ""));
    assert!(same_text("jboss-modules.jar", "jboss-modules.jar"));
    assert!(!same_text("jboss-modules.jar", "jboss-modules.ja"));
    assert!(!same_text("jboss-modules.jar", "jboss-modules.jaR"));
    assert!(!same_text("a", ""));
}

#[test]
fn prefixes() {
    assert!(starts_with("/opt/app.jar", "/"));
    assert!(!starts_with("opt/app.jar", "/"));
    assert!(!starts_with("", "/"));
    assert!(starts_with("", ""));
    assert!(starts_with("abc", ""));
    assert!(starts_with("abc", "abc"));
    assert!(!starts_with("abc", "abcd"));
    assert!(!starts_with("xabc", "abc"));
}

#[test]
fn suffixes() {
    assert!(ends_with("java", "java"));
    assert!(ends_with("/usr/bin/java", "java"));
    assert!(!ends_with("javac", "java"));
    assert!(!ends_with("ava", "java"));
    assert!(!ends_with("", "java"));
    assert!(ends_with("java", ""));
    assert!(ends_with("", ""));
}

#[test]
fn substrings() {
    assert!(contains("lib/quarkus-run.jar", "quarkus-run"));
    assert!(contains("lib/quarkus-run.jar", "lib/"));
    assert!(contains("lib/quarkus-run.jar", ".jar"));
    assert!(contains("lib/quarkus-run.jar", "lib/quarkus-run.jar"));
    assert!(!contains("lib/quarkus-run.jar", "quarkus_run"));
    assert!(!contains("lib/quarkus-run.jar", "lib/quarkus-run.jar "));
    assert!(contains("aab", "ab"));
    assert!(contains("abc", ""));
    assert!(contains("", ""));
    assert!(!contains("", "a"));
    assert!(contains_chars(&chars("ünïcödé"), &chars("cö")));
    assert!(!contains_chars(&chars("ab"), &chars("ba")));
}

#[test]
fn position_of_a_character() {
    assert_eq!(position_of(&chars("a=b=c"), '='), 1);
    assert_eq!(position_of(&chars("=a"), '='), 0);
    assert_eq!(position_of(&chars("abc"), '='), 3);
    assert_eq!(position_of(&chars(""), '='), 0);
}

#[test]
fn splitting() {
    assert_eq!(split_on("a.jar:b.jar:c.jar", ':'), tokens(&["a.jar", "b.jar", "c.jar"]));
    assert_eq!(split_on("a.jar", ':'), tokens(&["a.jar"]));
    assert_eq!(split_on("", ':'), tokens(&[""]));
    assert_eq!(split_on(":", ':'), tokens(&["", ""]));
    assert_eq!(split_on("a::b", ':'), tokens(&["a", "", "b"]));
    assert_eq!(split_on(":a:", ':'), tokens(&["", "a", ""]));
    assert_eq!(split_on("é:ü", ':'), tokens(&["é", "ü"]));
    assert_eq!(split_on("a:b", '/'), tokens(&["a:b"]));
}

#[test]
fn splitting_agrees_with_the_standard_library() {
    for s in ["", ":", "a", "a:b", "::", "a:b:", ":a:b", "x:yy:zzz::"] {
        let expected: Vec<String> = s.split(':').map(|p| p.to_string()).collect();
        assert_eq!(split_on(s, ':'), expected);
    }
}

#[test]
fn final_segments() {
    assert_eq!(last_segment_of("/opt/app/jboss-modules.jar"), "jboss-modules.jar");
    assert_eq!(last_segment_of("jboss-modules.jar"), "jboss-modules.jar");
    assert_eq!(last_segment_of("lib/app.jar"), "app.jar");
    assert_eq!(last_segment_of("/opt/app/"), "");
    assert_eq!(last_segment_of("/"), "");
    assert_eq!(last_segment_of(""), "");
    assert_eq!(last_segment_of("/ü/é.jar"), "é.jar");
}

#[test]
fn what_follows_the_first_occurrence() {
    assert_eq!(split_after("-Djboss.home.dir=/opt/jboss", '='), Some("/opt/jboss"));
    assert_eq!(split_after("a=b=c", '='), Some("b=c"));
    assert_eq!(split_after("a=", '='), Some(""));
    assert_eq!(split_after("=", '='), Some(""));
    assert_eq!(split_after("abc", '='), None);
    assert_eq!(split_after("", '='), None);
    assert_eq!(split_after("é=ü", '='), Some("ü"));
}

#[test]
fn token_positions() {
    let argv = tokens(&["java", "-cp", "a.jar", "-jar", "x.jar", "-jar", "-classpath"]);
    assert_eq!(position_of_token(&argv, "-jar"), 3);
    assert_eq!(position_of_token(&argv, "java"), 0);
    assert_eq!(position_of_token(&argv, "-ja"), 7);
    assert_eq!(position_of_token(&argv, "jar"), 7);
    assert_eq!(position_of_token(&tokens(&[]), "-jar"), 0);
    assert_eq!(position_of_either(&argv, "-classpath", "-cp"), 1);
    assert_eq!(position_of_either(&argv, "-cp", "-classpath"), 1);
    assert_eq!(position_of_either(&argv, "-classpath", "-x"), 6);
    assert_eq!(position_of_either(&argv, "-y", "-x"), 7);
    assert_eq!(position_of_prefixed(&argv, "-j"), 3);
    assert_eq!(position_of_prefixed(&argv, "-c"), 1);
    assert_eq!(position_of_prefixed(&argv, ""), 0);
    assert_eq!(position_of_prefixed(&argv, "-jars"), 7);
    assert_eq!(position_holding(&argv, ".jar"), 2);
    assert_eq!(position_holding(&argv, "x"), 4);
    assert_eq!(position_holding(&argv, "lass"), 6);
    assert_eq!(position_holding(&argv, "zip"), 7);
    assert!(has_token(&argv, "x.jar"));
    assert!(!has_token(&argv, "x"));
    assert!(!has_token(&tokens(&[]), ""));
    assert!(has_token(&tokens(&[""]), ""));
}

fn all_texts(alphabet: &[char], longest: usize) -> Vec<String> {
    let mut texts = vec![String::new()];
    let mut from = 0;
    for _ in 0..longest {
        let to = texts.len();
        for i in from..to {
            for c in alphabet {
                let mut longer = texts[i].clone();
                longer.push(*c);
                texts.push(longer);
            }
        }
        from = to;
    }
    texts
}

#[test]
fn every_short_text_is_enumerated() {
    assert_eq!(all_texts(&['a', 'b'], 2), tokens(&["", "a", "b", "aa", "ab", "ba", "bb"]));
    assert_eq!(all_texts(&['a', ':', '/', 'é'], 4).len(), 341);
}

#[test]
fn comparisons_agree_with_the_standard_library() {
    let texts = all_texts(&['a', '/', 'é'], 4);
    for s in &texts {
        for t in &texts {
            assert_eq!(same_text(s, t), s == t, "{s:?} {t:?}");
            assert_eq!(starts_with(s, t), s.starts_with(t.as_str()), "{s:?} {t:?}");
            assert_eq!(ends_with(s, t), s.ends_with(t.as_str()), "{s:?} {t:?}");
            assert_eq!(contains(s, t), s.contains(t.as_str()), "{s:?} {t:?}");
        }
    }
}

#[test]
fn cutting_agrees_with_the_standard_library() {
    for s in &all_texts(&['a', ':', '/', 'é'], 4) {
        let pieces: Vec<String> = s.split(':').map(|p| p.to_string()).collect();
        assert_eq!(split_on(s, ':'), pieces, "{s:?}");
        assert_eq!(last_segment_of(s), s.rsplit('/').next().unwrap(), "{s:?}");
        assert_eq!(split_after(s, ':'), s.split_once(':').map(|(_, rest)| rest), "{s:?}");
        assert_eq!(position_of(&chars(s), 'é'), s.chars().position(|c| c == 'é').unwrap_or(s.chars().count()), "{s:?}");
    }
}
