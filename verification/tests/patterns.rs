use chronicle::normalize::normalize;
use regex::Regex;

/// The normal form as patterns state it: the opening fence line at the
/// start of the text, the closing one at its end, then the blank lines at
/// the start of what is left and the white space at its end.
struct Patterns {
    opening: Regex,
    closing: Regex,
    blank_lines: Regex,
}

impl Patterns {
    fn new() -> Patterns {
        Patterns {
            opening: Regex::new(r"^```[^\s`]*[^\S\n]*(?:\n|$)").unwrap(),
            closing: Regex::new(r"(?:^|\n)```\s*$").unwrap(),
            blank_lines: Regex::new(r"^\s*\n").unwrap(),
        }
    }

    fn normal_form(&self, raw: &str) -> String {
        let body = self.opening.replace(raw, "");
        let body = self.closing.replace(&body, "");
        let body = self.blank_lines.replace(&body, "");
        format!("{}\n", body.trim_end())
    }
}

fn texts_over(alphabet: &[char], max_len: usize) -> Vec<String> {
    let mut all = vec![String::new()];
    let mut last = vec![String::new()];
    for _ in 0..max_len {
        let mut next = Vec::with_capacity(last.len() * alphabet.len());
        for text in &last {
            for c in alphabet {
                let mut longer = text.clone();
                longer.push(*c);
                next.push(longer);
            }
        }
        all.extend(next.iter().cloned());
        last = next;
    }
    all
}

#[test]
fn short_texts_normalise_as_the_patterns_say() {
    let patterns = Patterns::new();
    for raw in texts_over(&['`', '\n', ' ', 'a'], 8) {
        assert_eq!(normalize(&raw), patterns.normal_form(&raw), "input {:?}", raw);
    }
}

#[test]
fn fenced_texts_normalise_as_the_patterns_say() {
    let patterns = Patterns::new();
    let openings = [
        "", "```\n", "```markdown\n", "``` \t\r\n", "```markdown\u{3000}\n", "```md\n", " ```\n", "```", "```py",
        "``` py\n", "````\n", "```a`\n", "```Py3\u{85}\n",
    ];
    let closings = ["", "\n```", "\n```\n", "\n``` \r\n\n", "\n```\u{2028}", "```", "\n ```", "\n````"];
    for body in texts_over(&['`', '\n', ' ', 'x'], 5) {
        for opening in openings {
            for closing in closings {
                let raw = format!("{}{}{}", opening, body, closing);
                assert_eq!(normalize(&raw), patterns.normal_form(&raw), "input {:?}", raw);
            }
        }
    }
}

#[test]
fn every_kind_of_white_space_is_handled_as_the_patterns_say() {
    let patterns = Patterns::new();
    let spaces = [
        '\t', '\n', '\u{b}', '\u{c}', '\r', ' ', '\u{85}', '\u{a0}', '\u{1680}', '\u{2000}',
        '\u{2005}', '\u{200a}', '\u{2028}', '\u{2029}', '\u{202f}', '\u{205f}', '\u{3000}',
    ];
    let others = ['\u{200b}', '\u{feff}', '\u{180e}', '\u{1c}', '\u{2060}'];
    for c in spaces.iter().chain(others.iter()) {
        for raw in [
            format!("{}x{}", c, c),
            format!("{}\n{}x{}\n{}", c, c, c, c),
            format!("```{}\nx\n```{}", c, c),
            format!("```markdown{}{}\nx{}\n```{}{}", c, c, c, c, c),
            format!("x\n{}```", c),
        ] {
            assert_eq!(normalize(&raw), patterns.normal_form(&raw), "input {:?}", raw);
        }
    }
}
