use clipwatch::template::{check_plain, Template};

fn render(source: &str, variables: &[(&str, &str)]) -> Result<String, String> {
    let template = Template::new(source.to_string());
    let variables: Vec<(String, String)> =
        variables.iter().map(|(name, value)| (name.to_string(), value.to_string())).collect();
    template.render(&variables).expect("a plain template")
}

#[test]
fn literal_template_renders_to_itself() {
    assert_eq!(render("hello name", &[("name", "world")]), Ok("hello name".to_string()));
    assert_eq!(render("", &[]), Ok(String::new()));
    assert_eq!(render("a}b)c(d$e=f%g?h:i", &[]), Ok("a}b)c(d$e=f%g?h:i".to_string()));
    assert_eq!(render("tab\there\nnewline", &[]), Ok("tab\there\nnewline".to_string()));
}

#[test]
fn placeholder_is_replaced_by_its_value() {
    assert_eq!(render("hello {name}", &[("name", "world")]), Ok("hello world".to_string()));
    assert_eq!(render("{a}{b}{a}", &[("a", "1"), ("b", "2")]), Ok("121".to_string()));
    assert_eq!(render("img-{i}.png", &[("i", "7")]), Ok("img-7.png".to_string()));
    assert_eq!(render("{A_9z}", &[("A_9z", "ok")]), Ok("ok".to_string()));
}

#[test]
fn value_is_inserted_verbatim() {
    assert_eq!(
        render("echo {text}", &[("text", "{i} \\ \" $(ls) =(+ 1 1) é %Y")]),
        Ok("echo {i} \\ \" $(ls) =(+ 1 1) é %Y".to_string())
    );
    assert_eq!(render("[{text}]", &[("text", "")]), Ok("[]".to_string()));
}

#[test]
fn escaped_character_is_literal() {
    assert_eq!(render("\\{i\\}", &[("i", "1")]), Ok("{i}".to_string()));
    assert_eq!(render("say \\\"{text}\\\"", &[("text", "hi")]), Ok("say \"hi\"".to_string()));
    assert_eq!(render("a\\\\b", &[]), Ok("a\\b".to_string()));
    assert_eq!(render("\\$(x)\\=(y)", &[]), Ok("$(x)=(y)".to_string()));
    assert_eq!(render("\\{{i}", &[("i", "3")]), Ok("{3".to_string()));
}

#[test]
fn later_binding_of_a_name_counts() {
    assert_eq!(render("{i}", &[("i", "1"), ("i", "2")]), Ok("2".to_string()));
}

#[test]
fn missing_variable_is_an_error() {
    assert!(render("{i}", &[]).is_err());
    assert!(render("a {text} b", &[("i", "0")]).is_err());
    assert!(render("{i}{text}", &[("i", "0")]).is_err());
    assert!(render("{I}", &[("i", "0")]).is_err());
}

#[test]
fn plain_templates_are_told_apart() {
    for plain in ["", "abc", "{i}", "img-{i}.png", "\\\"", "a\\{b", "$ (", "= (", "x}y", "{a}{b}", "$", "="] {
        assert!(check_plain(plain), "{:?}", plain);
        assert!(Template::new(plain.to_string()).is_plain(), "{:?}", plain);
    }
    for other in [
        "{", "{}", "{i", "{i }", "{ i}", "{i?}", "{a?b}", "{%Y}", "{=(+ 1 1)}", "{i:f(2)}",
        "\"quoted\"", "\"", "$(ls)", "=(+ 1 1)", "trailing\\", "é", "{é}", "\\é", "{i}{", "{{i}}",
        "a$(", "a=(",
    ] {
        assert!(!check_plain(other), "{:?}", other);
        let template = Template::new(other.to_string());
        assert!(!template.is_plain(), "{:?}", other);
        assert_eq!(template.as_str(), other);
        assert_eq!(template.render(&vec![("i".to_string(), "1".to_string())]), None, "{:?}", other);
    }
}

fn expected(source: &str, variables: &[(&str, &str)]) -> Option<String> {
    let chars: Vec<char> = source.chars().collect();
    let mut out = String::new();
    let mut at = 0;
    while at < chars.len() {
        if chars[at] == '\\' {
            out.push(chars[at + 1]);
            at += 2;
        } else if chars[at] == '{' {
            let close = at + chars[at..].iter().position(|c| *c == '}').expect("closed");
            let name: String = chars[at + 1..close].iter().collect();
            let value = variables.iter().rev().find(|(n, _)| *n == name)?;
            out.push_str(value.1);
            at = close + 1;
        } else {
            out.push(chars[at]);
            at += 1;
        }
    }
    Some(out)
}

#[test]
fn rendering_is_substitution_on_generated_templates() {
    let pieces = [
        "a", "Z", "0", " ", "-", ".", "/", "}", "(", ")", "$", "=", "%", "?", ":", "'", "\n", "\t", "~",
        "\\\\", "\\{", "\\}", "\\\"", "\\$", "\\=", "\\(", "\\a", "\\ ", "{i}", "{text}", "{x_1}",
        "{missing}", "{I}", "{t}",
    ];
    let variables = [("i", "42"), ("text", "some {i} \\ text"), ("x_1", ""), ("t", "é")];
    let mut seed: u64 = 0x2545f4914f6cdd1d;
    let mut rendered_ok = 0;
    let mut rendered_err = 0;
    for _ in 0..3000 {
        let mut source = String::new();
        seed = seed.wrapping_mul(6364136223846793005).wrapping_add(1442695040888963407);
        let length = (seed >> 60) as usize % 9;
        let mut last = "";
        for _ in 0..length {
            seed = seed.wrapping_mul(6364136223846793005).wrapping_add(1442695040888963407);
            let piece = pieces[(seed >> 33) as usize % pieces.len()];
            if piece == "(" && (last == "$" || last == "=") {
                continue;
            }
            source.push_str(piece);
            last = piece;
        }
        if !check_plain(&source) {
            panic!("{:?} should be plain", source);
        }
        let got = render(&source, &variables);
        match expected(&source, &variables) {
            Some(text) => {
                assert_eq!(got, Ok(text), "{:?}", source);
                rendered_ok += 1;
            }
            None => {
                assert!(got.is_err(), "{:?}", source);
                rendered_err += 1;
            }
        }
    }
    assert!(rendered_ok > 500 && rendered_err > 500);
}
