use caco3::build_info::{is_valid_id, GitSha};
use caco3::config::{is_falsy, is_truthy};
use caco3::text::indent;
use caco3::time::human_duration::HumanDuration;
use caco3::web::sql::sql_trim_boxed;

const ALPHABET: [char; 12] =
    ['a', 'F', '7', ' ', '\t', '\n', '\r', '-', 'é', '\u{3000}', '\u{85}', 'Y'];

struct Texts {
    state: u64,
}

impl Texts {
    fn number(&mut self) -> u64 {
        self.state = self.state.wrapping_mul(6364136223846793005).wrapping_add(1442695040888963407);
        self.state >> 33
    }

    fn text(&mut self, max_len: u64) -> String {
        let len = self.number() % (max_len + 1);
        (0..len).map(|_| ALPHABET[(self.number() % 12) as usize]).collect()
    }
}

fn indent_by_std(width: usize, ch: char, trim_end: bool, input: &str) -> String {
    let pad: String = std::iter::repeat(ch).take(width).collect();
    let line = |line: &str| {
        let padded = format!("{pad}{line}");
        if trim_end {
            padded.trim_end().to_string()
        } else {
            padded
        }
    };
    if input.is_empty() {
        return line("");
    }
    input.lines().map(line).collect::<Vec<_>>().join("\n")
}

#[test]
fn indent_agrees_with_the_standard_library() {
    let mut texts = Texts { state: 1 };
    for round in 0..3000 {
        let input = texts.text(14);
        let width = (round % 4) as usize;
        let ch = ALPHABET[round % 12];
        for trim_end in [false, true] {
            assert_eq!(
                indent(width, ch, trim_end, &input),
                indent_by_std(width, ch, trim_end, &input),
                "indent({width}, {ch:?}, {trim_end}, {input:?})"
            );
        }
    }
}

fn sql_trim_by_std(query: &str) -> String {
    query
        .lines()
        .filter(|line| {
            let trimmed = line.trim();
            !(trimmed.starts_with("--") || trimmed.is_empty())
        })
        .collect::<Vec<_>>()
        .join("\n")
}

#[test]
fn sql_trim_agrees_with_the_standard_library() {
    let mut texts = Texts { state: 2 };
    for _ in 0..3000 {
        let query = texts.text(16);
        assert_eq!(sql_trim_boxed(&query).as_ref(), sql_trim_by_std(&query), "{query:?}");
    }
}

#[test]
fn choices_agree_with_the_standard_library() {
    let truthy = ["1", "true", "y", "yes", "on"];
    let falsy = ["0", "false", "n", "no", "off"];
    let mut texts = Texts { state: 3 };
    let mut candidates: Vec<String> = (0..2000).map(|_| texts.text(5)).collect();
    for word in truthy.iter().chain(falsy.iter()) {
        candidates.push(word.to_string());
        candidates.push(word.to_uppercase());
        candidates.push(format!("{word} "));
        let mut mixed = String::new();
        for (i, c) in word.chars().enumerate() {
            mixed.push(if i % 2 == 0 { c.to_ascii_uppercase() } else { c });
        }
        candidates.push(mixed);
    }
    for candidate in candidates {
        let yes = truthy.iter().any(|word| candidate.eq_ignore_ascii_case(word));
        let no = falsy.iter().any(|word| candidate.eq_ignore_ascii_case(word));
        assert_eq!(is_truthy(&candidate), yes, "{candidate:?}");
        assert_eq!(is_falsy(&candidate), no, "{candidate:?}");
        assert!(!(yes && no));
    }
}

fn valid_by_std(id: &str) -> bool {
    (7..=64).contains(&id.len()) && id.chars().all(|c| c.is_ascii_hexdigit())
}

#[test]
fn commit_ids_agree_with_the_standard_library() {
    let mut texts = Texts { state: 4 };
    for round in 0..3000 {
        let mut id = texts.text(10);
        if round % 2 == 0 {
            id = id.chars().filter(|c| c.is_ascii_hexdigit()).collect::<String>().repeat(5);
        }
        assert_eq!(is_valid_id(&id), valid_by_std(&id), "{id:?}");
        let parsed = GitSha::parse(&id);
        assert_eq!(parsed.is_ok(), valid_by_std(&id));
        if let Ok(sha) = parsed {
            for max_length in [0, 1, 6, 7, 8, 63, 64, 65] {
                let expected: String = id.chars().take(max_length).collect();
                assert_eq!(sha.shorten(max_length), expected);
            }
        }
        let output = format!("{id}\n");
        let trimmed = output.trim_end();
        match GitSha::from_output(&output) {
            Some(sha) => {
                assert!(valid_by_std(trimmed));
                assert_eq!(sha.as_str(), trimmed);
            }
            None => assert!(!valid_by_std(trimmed), "{output:?}"),
        }
    }
}

fn format_by_hand(secs: u64, limit: usize) -> String {
    let mut parts = Vec::new();
    if secs >= 86_400 {
        parts.push(format!("{}d", secs / 86_400));
    }
    if secs >= 3_600 {
        parts.push(format!("{}h", secs / 3_600 % 24));
    }
    if secs >= 60 {
        parts.push(format!("{}m", secs / 60 % 60));
    }
    parts.push(format!("{}s", secs % 60));
    parts.truncate(limit);
    parts.join(" ")
}

#[test]
fn durations_are_written_as_their_components() {
    let mut texts = Texts { state: 5 };
    let mut samples = vec![0, 1, 59, 60, 61, 3_599, 3_600, 3_601, 86_399, 86_400, 86_401, u64::MAX];
    for _ in 0..2000 {
        samples.push(texts.number() % 400_000);
        samples.push(texts.number().wrapping_mul(texts.number()));
    }
    for secs in samples {
        for limit in 0..6u8 {
            assert_eq!(
                HumanDuration::from_secs(secs).format(limit),
                format_by_hand(secs, limit as usize),
                "{secs} seconds in {limit} components"
            );
        }
        let duration = HumanDuration::from_secs(secs);
        let total = duration.days().unwrap_or(0) as u128 * 86_400
            + duration.hours().unwrap_or(0) as u128 * 3_600
            + duration.minutes().unwrap_or(0) as u128 * 60
            + duration.secs() as u128;
        assert_eq!(total, secs as u128);
    }
}
