use neoterm::files::sanitize_filename;
use neoterm::text::{contains_text, same_text};
use neoterm::workflows::escape::escape_for;
use neoterm::workflows::number::is_number_text;
use neoterm::workflows::substitution::substitute;
use neoterm::workflows::{Shell, Workflow};

/// A small generator of numbers that gives the same run every time.
struct Numbers(u64);

impl Numbers {
    fn next(&mut self) -> u64 {
        self.0 = self.0.wrapping_mul(6364136223846793005).wrapping_add(1442695040888963407);
        self.0 >> 33
    }

    fn text(&mut self, alphabet: &[char], longest: u64) -> String {
        let len = self.next() % (longest + 1);
        (0..len).map(|_| alphabet[(self.next() % alphabet.len() as u64) as usize]).collect()
    }
}

fn scan_by_peeking(command: &str) -> Vec<String> {
    let mut placeholders = Vec::new();
    let mut chars = command.chars().peekable();
    while let Some(ch) = chars.next() {
        if ch == '{' && chars.peek() == Some(&'{') {
            chars.next();
            let mut placeholder = String::new();
            while let Some(ch) = chars.next() {
                if ch == '}' && chars.peek() == Some(&'}') {
                    chars.next();
                    if !placeholder.is_empty() {
                        placeholders.push(placeholder);
                    }
                    break;
                } else {
                    placeholder.push(ch);
                }
            }
        }
    }
    placeholders
}

#[test]
fn contains_text_agrees_with_the_search_of_std() {
    let mut numbers = Numbers(1);
    let alphabet = ['a', 'b', 'ä', '√'];
    for _ in 0..4000 {
        let hay = numbers.text(&alphabet, 8);
        let needle = numbers.text(&alphabet, 3);
        assert_eq!(contains_text(&hay, &needle), hay.contains(&needle), "{:?} in {:?}", needle, hay);
        assert_eq!(same_text(&hay, &needle), hay == needle);
    }
}

fn fill_in_one_pass(command: &str, values: &[(String, String)], shell: Shell) -> String {
    let mut out = String::new();
    let mut rest = command;
    while let Some(first) = rest.chars().next() {
        let hit = values.iter().find(|(name, _)| rest.starts_with(&format!("{{{{{}}}}}", name)));
        match hit {
            Some((name, value)) => {
                out.push_str(&escape_for(shell, value));
                rest = &rest[name.len() + 4..];
            }
            None => {
                out.push(first);
                rest = &rest[first.len_utf8()..];
            }
        }
    }
    out
}

#[test]
fn substitute_agrees_with_filling_in_one_pass() {
    let mut numbers = Numbers(2);
    let alphabet = ['a', 'b', '{', '}', '\'', ' '];
    let names = ['a', 'b', '{', '}', 'ö'];
    for round in 0..4000 {
        let mut command = numbers.text(&alphabet, 6);
        let mut values: Vec<(String, String)> = Vec::new();
        for _ in 0..(numbers.next() % 3) {
            let name = numbers.text(&names, 2);
            let value = numbers.text(&alphabet, 4);
            if numbers.next() % 2 == 0 {
                command.push_str(&format!("{{{{{}}}}}", name));
                command.push_str(&numbers.text(&alphabet, 3));
            }
            values.push((name, value));
        }
        let shell = [Shell::Bash, Shell::Zsh, Shell::Fish][round % 3];
        assert_eq!(
            substitute(&command, &values, shell),
            fill_in_one_pass(&command, &values, shell),
            "{:?} with {:?}",
            command,
            values
        );
    }
}

#[test]
fn extract_placeholders_agrees_with_a_scan_that_peeks() {
    let mut numbers = Numbers(3);
    let alphabet = ['{', '}', 'a', ' ', 'é'];
    for _ in 0..6000 {
        let command = numbers.text(&alphabet, 14);
        let w = Workflow {
            name: "w".to_string(),
            command: command.clone(),
            tags: vec![],
            description: None,
            source_url: None,
            author: None,
            author_url: None,
            shells: None,
            arguments: vec![],
            file_path: None,
            last_used: None,
            usage_count: 0,
        };
        assert_eq!(w.extract_placeholders(), scan_by_peeking(&command), "in {:?}", command);
    }
}

#[test]
fn number_texts_agree_with_the_parsing_of_std() {
    let mut numbers = Numbers(4);
    let alphabet = ['0', '7', '.', 'e', 'E', '+', '-', 'i', 'n', 'f', 'a', 'N', ' '];
    for _ in 0..20000 {
        let text = numbers.text(&alphabet, 7);
        assert_eq!(is_number_text(&text), text.parse::<f64>().is_ok(), "for {:?}", text);
    }
}

#[test]
fn posix_quoting_agrees_with_replacing_the_quotes() {
    let mut numbers = Numbers(5);
    let alphabet = ['\'', '"', 'a', ' ', '\\', '$'];
    for _ in 0..2000 {
        let value = numbers.text(&alphabet, 8);
        let expected = format!("'{}'", value.replace('\'', "'\"'\"'"));
        assert_eq!(escape_for(Shell::Bash, &value), expected);
        assert_eq!(escape_for(Shell::Zsh, &value), expected);
        let fish = if value.contains(' ') || value.contains('\t') || value.contains('\n') {
            format!("'{}'", value.replace('\'', "\\'"))
        } else {
            value.clone()
        };
        assert_eq!(escape_for(Shell::Fish, &value), fish);
    }
}

#[test]
fn sanitize_filename_agrees_with_mapping_the_characters() {
    let mut numbers = Numbers(6);
    let alphabet = ['/', '\\', ':', '*', '?', '"', '<', '>', '|', 'a', '.', ' ', 'ß'];
    for _ in 0..2000 {
        let name = numbers.text(&alphabet, 10);
        let expected: String = name
            .chars()
            .map(|c| match c {
                '/' | '\\' | ':' | '*' | '?' | '"' | '<' | '>' | '|' => '_',
                c => c,
            })
            .collect();
        assert_eq!(sanitize_filename(&name), expected);
    }
}
