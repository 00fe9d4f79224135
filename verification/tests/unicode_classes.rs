//! The character classes and case folding of the name patterns agree with
//! the `regex` crate on every `char`.
use cast_server::text::ci_char_exec;
use cast_server::unicode::{is_decimal_exec, is_space_exec, is_word_exec};
use regex::Regex;
use std::collections::HashSet;

/// Every `char` but `\n`, one per line.
fn all_chars_haystack() -> String {
    let mut s = String::new();
    for c in (0u32..=0x10FFFF).filter_map(char::from_u32) {
        if c != '\n' {
            s.push(c);
            s.push('\n');
        }
    }
    s
}

fn matched(pattern: &str, hay: &str) -> HashSet<char> {
    let re = Regex::new(pattern).unwrap();
    re.find_iter(hay)
        .filter_map(|m| {
            let mut cs = m.as_str().chars();
            match (cs.next(), cs.next()) {
                (Some(c), None) => Some(c),
                _ => None,
            }
        })
        .collect()
}

fn every_char() -> impl Iterator<Item = char> {
    (0u32..=0x10FFFF).filter_map(char::from_u32).filter(|c| *c != '\n')
}

#[test]
fn word_class_matches_regex_on_every_char() {
    let hay = all_chars_haystack();
    let words = matched(r"(?m)^\w$", &hay);
    for c in every_char() {
        assert_eq!(is_word_exec(c), words.contains(&c), "\\w disagrees on U+{:04X}", c as u32);
    }
    assert_eq!(is_word_exec('\n'), Regex::new(r"^\w$").unwrap().is_match("\n"));
}

#[test]
fn decimal_class_matches_regex_on_every_char() {
    let hay = all_chars_haystack();
    let digits = matched(r"(?m)^\d$", &hay);
    for c in every_char() {
        assert_eq!(is_decimal_exec(c), digits.contains(&c), "\\d disagrees on U+{:04X}", c as u32);
    }
    assert!(!is_decimal_exec('\n'));
}

#[test]
fn space_class_matches_regex_on_every_char() {
    let hay = all_chars_haystack();
    let spaces = matched(r"(?m)^\s$", &hay);
    for c in every_char() {
        assert_eq!(is_space_exec(c), spaces.contains(&c), "\\s disagrees on U+{:04X}", c as u32);
    }
    assert!(is_space_exec('\n'));
    assert!(Regex::new(r"^\s$").unwrap().is_match("\n"));
}

#[test]
fn case_folding_matches_regex_on_every_char() {
    let hay = all_chars_haystack();
    let mut pattern_chars: Vec<char> = ('a'..='z').collect();
    pattern_chars.extend(['0', '9', ' ', '.', '-', '_', 'x']);
    for p in pattern_chars {
        let folded = matched(&format!("(?im)^{}$", regex::escape(&p.to_string())), &hay);
        for c in every_char() {
            assert_eq!(
                ci_char_exec(c, p),
                folded.contains(&c),
                "case folding of {:?} disagrees on U+{:04X}",
                p,
                c as u32
            );
        }
    }
}
