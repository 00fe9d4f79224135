//! The verified readers of file and folder names agree with the same rules
//! written as regular expressions, on a generated corpus of names.
use cast_server::library::{parse_episode_filename, try_parse_episode_filename};
use cast_server::tmdb::clean_search_query;
use regex::Regex;

struct Expected {
    season: Option<u32>,
    episode: Option<u32>,
    title: String,
}

struct Rules {
    tags: Regex,
    sxe: Regex,
    nxn: Regex,
    compact: Regex,
    word: Regex,
    num_title: Regex,
    num: Regex,
    query: Vec<(Regex, &'static str)>,
}

fn rules() -> Rules {
    Rules {
        tags: Regex::new(r"(?i)\b(720p|1080p|2160p|4k|web|webrip|web-dl|hdtv|bluray|bdrip|dvdrip|h\.?264|h\.?265|x\.?264|x\.?265|aac|hevc|10bit|hdr|remux)\b").unwrap(),
        sxe: Regex::new(r"(?i)[Ss](\d+)[Ee](\d+)[\s.\-]*(.*)$").unwrap(),
        nxn: Regex::new(r"(?i)(?:^|[\s.])(\d+)x(\d+)[\s.\-]*(.*)$").unwrap(),
        compact: Regex::new(r"(?:^|[.\-\s])(\d{2})(\d{2})(?:[.\-\s]|$)").unwrap(),
        word: Regex::new(r"(?i)(?:^|[\s.])Episode\s+(\d+)[\s.\-]*(.*)$").unwrap(),
        num_title: Regex::new(r"^(\d+)[\s.\-]+(.+)$").unwrap(),
        num: Regex::new(r"^(\d+)$").unwrap(),
        query: [
            (r"\(\d{4}\)", ""),
            (r"\[\d{4}\]", ""),
            (r"(?i)\b(1080p|720p|4K|2160p|480p)\b", ""),
            (r"(?i)\b(BluRay|WEB-DL|WEBRip|HDTV|BRRip|DVDRip)\b", ""),
            (r"(?i)\b(x264|x265|H[.\s]?264|H[.\s]?265|HEVC|AAC|DTS)\b", ""),
            (r"(?i)\bS\d+\b", ""),
            (r"\b\d{4}\b", ""),
            (r"\s{2,}", " "),
        ]
        .iter()
        .map(|(p, w)| (Regex::new(p).unwrap(), *w))
        .collect(),
    }
}

fn strip_release_tags(r: &Rules, s: &str) -> String {
    if let Some(m) = r.tags.find(s) {
        let before = s[..m.start()].trim();
        let before = before.trim_end_matches(|c: char| c == '-' || c == '.' || c == ' ');
        return before.to_string();
    }
    if let Some(idx) = s.rfind('-') {
        let after = &s[idx + 1..];
        if !after.is_empty() && after.chars().all(|c| c.is_ascii_alphanumeric()) && after.len() <= 12 {
            let before = s[..idx].trim();
            if !before.is_empty() {
                return before.to_string();
            }
        }
    }
    s.to_string()
}

fn clean_title(r: &Rules, raw: &str) -> String {
    let s = raw.replace(['.', '_'], " ");
    let s = s.trim();
    let s = s.strip_prefix("- ").or_else(|| s.strip_prefix('-')).unwrap_or(s);
    let s = s.trim();
    strip_release_tags(r, s)
}

fn numbered(r: &Rules, season: Option<u32>, episode: u32, raw: &str) -> Expected {
    let title = clean_title(r, raw);
    Expected {
        season,
        episode: Some(episode),
        title: if title.is_empty() { format!("Episode {episode}") } else { title },
    }
}

fn regex_parse(r: &Rules, filename: &str) -> Option<Expected> {
    let (sxe, nxn, compact, word, num_title, num) = (&r.sxe, &r.nxn, &r.compact, &r.word, &r.num_title, &r.num);
    let stem = std::path::Path::new(filename).file_stem().unwrap_or_default().to_string_lossy().to_string();
    let stem = stem.trim();
    if let Some(c) = sxe.captures(stem) {
        return Some(numbered(r, Some(c[1].parse().ok()?), c[2].parse().ok()?, c.get(3).map(|m| m.as_str()).unwrap_or("")));
    }
    if let Some(c) = nxn.captures(stem) {
        return Some(numbered(r, Some(c[1].parse().ok()?), c[2].parse().ok()?, c.get(3).map(|m| m.as_str()).unwrap_or("")));
    }
    if let Some(c) = compact.captures(stem) {
        let season: u32 = c[1].parse().ok()?;
        let episode: u32 = c[2].parse().ok()?;
        if (1..=30).contains(&season) && episode >= 1 {
            return Some(Expected { season: Some(season), episode: Some(episode), title: format!("Episode {episode}") });
        }
    }
    if let Some(c) = word.captures(stem) {
        return Some(numbered(r, None, c[1].parse().ok()?, c.get(2).map(|m| m.as_str()).unwrap_or("")));
    }
    if let Some(c) = num_title.captures(stem) {
        return Some(numbered(r, None, c[1].parse().ok()?, &c[2]));
    }
    if let Some(c) = num.captures(stem) {
        let episode: u32 = c[1].parse().ok()?;
        return Some(Expected { season: None, episode: Some(episode), title: format!("Episode {episode}") });
    }
    Some(Expected { season: None, episode: None, title: clean_title(r, stem) })
}

fn regex_clean_query(r: &Rules, folder_name: &str) -> String {
    let mut s = folder_name.replace(['.', '_'], " ");
    for (p, with) in &r.query {
        s = p.replace_all(&s, *with).to_string();
    }
    s.trim().to_string()
}

/// A small deterministic generator of names from interesting pieces.
fn corpus() -> Vec<String> {
    let pieces = [
        "S01E03", "s2e10", "S1E3", "01x03", "2x7", "Episode 05", "episode  12", "03", "0201", "0412", "1999", "2020",
        " - ", ".", "-", "_", " ", "Title", "The.Wire", "720p", "WEB", "x264", "h.265", "HEVC", "-GROUP", "-sylix",
        "Ep", "10bit", "remux", "Ümlaut", "x", "S", "E", "4K", "[2020]", "(2008)", "web-dl", "\u{17f}01e02",
        "K\u{212a}", "S99999999999E1", "\t", "ep1", "Show Name",
    ];
    let exts = [".mkv", ".mp4", "", ".avi"];
    let mut out = Vec::new();
    let mut seed: u64 = 0x2545_f491_4f6c_dd1d;
    for _ in 0..600 {
        let mut name = String::new();
        seed ^= seed << 13;
        seed ^= seed >> 7;
        seed ^= seed << 17;
        let n = 1 + (seed % 5) as usize;
        for k in 0..n {
            let idx = ((seed >> (k * 8)) as usize) % pieces.len();
            name.push_str(pieces[idx]);
        }
        name.push_str(exts[(seed >> 40) as usize % exts.len()]);
        out.push(name);
    }
    for p in pieces {
        out.push(format!("{p}.mkv"));
    }
    out
}

#[test]
fn episode_names_agree_with_regexes() {
    let r = rules();
    for name in corpus() {
        let expected = regex_parse(&r, &name);
        match expected {
            Some(e) => {
                let got = parse_episode_filename(&name);
                assert_eq!(got.season, e.season, "season of {name:?}");
                assert_eq!(got.episode, e.episode, "episode of {name:?}");
                assert_eq!(got.title, e.title, "title of {name:?}");
            }
            None => assert!(try_parse_episode_filename(&name).is_none(), "{name:?} should not read"),
        }
    }
}

#[test]
fn search_queries_agree_with_regexes() {
    let r = rules();
    for name in corpus() {
        assert_eq!(clean_search_query(&name), regex_clean_query(&r, &name), "query of {name:?}");
    }
    for name in ["Breaking Bad (2008) 1080p", "Some.Show.2019.1080p.WEB-DL.H.265.AAC", "A  B", "H 264 x", "S01E02"] {
        assert_eq!(clean_search_query(name), regex_clean_query(&r, name), "query of {name:?}");
    }
}
