use notice_header::error::Error;
use notice_header::header::{HeaderBlock, Template};

fn block(template: &[u8], style: &[u8]) -> Vec<u8> {
    HeaderBlock::build(template, style).unwrap().as_bytes().to_vec()
}

#[test]
fn one_line_template_gives_comment_line_and_blank_line() {
    assert_eq!(block(b"Copyright 2024", b"//"), b"// Copyright 2024\n\n".to_vec());
}

#[test]
fn final_line_feed_adds_no_line() {
    assert_eq!(block(b"Copyright 2024\n", b"//"), b"// Copyright 2024\n\n".to_vec());
}

#[test]
fn each_line_gets_the_comment_style() {
    assert_eq!(
        block(b"first\nsecond\nthird", b"#"),
        b"# first\n# second\n# third\n\n".to_vec()
    );
}

#[test]
fn empty_template_gives_the_blank_line_alone() {
    assert_eq!(block(b"", b"//"), b"\n".to_vec());
}

#[test]
fn template_of_one_line_feed_gives_one_empty_comment_line() {
    assert_eq!(block(b"\n", b"//"), b"// \n\n".to_vec());
}

#[test]
fn blank_lines_inside_and_at_the_end_are_kept() {
    assert_eq!(block(b"a\n\nb\n\n", b"//"), b"// a\n// \n// b\n// \n\n".to_vec());
}

#[test]
fn carriage_return_before_line_feed_is_dropped() {
    assert_eq!(block(b"a\r\nb\r\n", b"//"), b"// a\n// b\n\n".to_vec());
}

#[test]
fn only_one_carriage_return_is_dropped() {
    assert_eq!(block(b"a\r\r\nb", b"//"), b"// a\r\n// b\n\n".to_vec());
}

#[test]
fn carriage_return_inside_a_line_stays() {
    assert_eq!(block(b"a\rb\n", b"//"), b"// a\rb\n\n".to_vec());
}

#[test]
fn carriage_return_at_the_end_of_an_unterminated_line_stays() {
    assert_eq!(block(b"a\nb\r", b"//"), b"// a\n// b\r\n\n".to_vec());
}

#[test]
fn bytes_beyond_ascii_pass_through() {
    let template = "© 2024 Zoë\nß".as_bytes();
    assert_eq!(block(template, b"--"), "-- © 2024 Zoë\n-- ß\n\n".as_bytes().to_vec());
}

#[test]
fn comment_style_may_hold_several_bytes_and_spaces() {
    assert_eq!(block(b"x", b" ;; "), b" ;;  x\n\n".to_vec());
}

#[test]
fn empty_comment_style_is_refused() {
    assert_eq!(HeaderBlock::build(b"Copyright 2024", b"").err(), Some(Error::InvalidConfig));
    assert_eq!(HeaderBlock::build(b"", b"").err(), Some(Error::InvalidConfig));
}

#[test]
fn load_builds_from_what_was_read() {
    let source = Template::Found(b"Copyright 2024".to_vec());
    let loaded = HeaderBlock::load(&source, b"//").unwrap();
    assert_eq!(loaded.as_bytes(), b"// Copyright 2024\n\n");
}

#[test]
fn missing_template_is_not_found() {
    assert_eq!(HeaderBlock::load(&Template::Missing, b"//").err(), Some(Error::NotFound));
}

#[test]
fn unreadable_template_is_an_io_error() {
    assert_eq!(HeaderBlock::load(&Template::Unreadable, b"//").err(), Some(Error::Io));
}

#[test]
fn missing_template_is_not_found_whatever_the_style() {
    assert_eq!(HeaderBlock::load(&Template::Missing, b"").err(), Some(Error::NotFound));
    assert_eq!(HeaderBlock::load(&Template::Missing, b" ").err(), Some(Error::NotFound));
}

#[test]
fn unreadable_template_is_an_io_error_whatever_the_style() {
    assert_eq!(HeaderBlock::load(&Template::Unreadable, b"").err(), Some(Error::Io));
}

#[test]
fn empty_comment_style_is_refused_once_the_template_is_there() {
    let source = Template::Found(b"x".to_vec());
    assert_eq!(HeaderBlock::load(&source, b"").err(), Some(Error::InvalidConfig));
    let empty = Template::Found(Vec::new());
    assert_eq!(HeaderBlock::load(&empty, b"").err(), Some(Error::InvalidConfig));
}

#[test]
fn same_inputs_give_the_same_block() {
    assert_eq!(block(b"a\nb", b"//"), block(b"a\nb", b"//"));
}

#[test]
fn missing_template_message_says_what_to_do() {
    let text = Error::NotFound.message();
    assert!(text.contains("--header"));
    assert!(text.contains("./NOTICE"));
}

#[test]
fn each_error_has_its_own_message() {
    let all = [Error::NotFound, Error::Io, Error::MalformedHeader, Error::InvalidConfig];
    for (i, a) in all.iter().enumerate() {
        assert!(!a.message().is_empty());
        for b in all.iter().skip(i + 1) {
            assert_ne!(a.message(), b.message());
        }
    }
}
