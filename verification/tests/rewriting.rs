use notice_header::error::Error;
use notice_header::header::HeaderBlock;
use notice_header::rewrite::Mode;

fn copyright() -> HeaderBlock {
    HeaderBlock::build(b"Copyright 2024", b"//").unwrap()
}

#[test]
fn insert_puts_block_above_file() {
    let written = copyright().insert(b"fn main() {}\n");
    assert_eq!(written, Some(b"// Copyright 2024\n\nfn main() {}\n".to_vec()));
}

#[test]
fn second_insert_writes_nothing() {
    let block = copyright();
    let first = block.insert(b"fn main() {}\n").unwrap();
    assert_eq!(block.insert(&first), None);
}

#[test]
fn remove_restores_file() {
    let block = copyright();
    let first = block.insert(b"fn main() {}\n").unwrap();
    assert_eq!(block.remove(&first), Ok(Some(b"fn main() {}\n".to_vec())));
}

#[test]
fn header_is_present_where_file_begins_with_the_trimmed_block() {
    let block = copyright();
    assert!(block.is_present(b"// Copyright 2024\n\nfn main() {}\n"));
    assert!(block.is_present(b"// Copyright 2024\nfn main() {}\n"));
    assert!(block.is_present(b"// Copyright 2024\n"));
    assert!(block.is_present(b"// Copyright 2024"));
    assert!(block.is_present(b"// Copyright 2024 and later\n"));
    assert!(block.is_present(b"// Copyright 20245"));
}

#[test]
fn header_is_absent_elsewhere() {
    let block = copyright();
    assert!(!block.is_present(b""));
    assert!(!block.is_present(b"fn main() {}\n"));
    assert!(!block.is_present(b"// Copyright 202"));
    assert!(!block.is_present(b"// Copyright 2023\n\nfn main() {}\n"));
    assert!(!block.is_present(b"\n// Copyright 2024\n\nfn main() {}\n"));
    assert!(!block.is_present(b" // Copyright 2024\n\nfn main() {}\n"));
    assert!(!block.is_present(b"fn main() {}\n// Copyright 2024\n\n"));
}

#[test]
fn insert_into_empty_file_gives_the_block() {
    assert_eq!(copyright().insert(b""), Some(b"// Copyright 2024\n\n".to_vec()));
}

#[test]
fn insert_keeps_every_byte_of_the_file() {
    let content: Vec<u8> = vec![0, 255, 13, 10, 10, 128, 46];
    let mut expected = b"// Copyright 2024\n\n".to_vec();
    expected.extend_from_slice(&content);
    assert_eq!(copyright().insert(&content), Some(expected));
}

#[test]
fn remove_leaves_file_without_header_alone() {
    let block = copyright();
    assert_eq!(block.remove(b"fn main() {}\n"), Ok(None));
    assert_eq!(block.remove(b""), Ok(None));
}

#[test]
fn remove_takes_as_many_bytes_as_the_block_has() {
    let block = copyright();
    assert_eq!(block.as_bytes().len(), 19);
    assert_eq!(block.remove(b"// Copyright 2024\n\n\nrest"), Ok(Some(b"\nrest".to_vec())));
    assert_eq!(
        block.remove(b"// Copyright 2024 (c) me\nrest"),
        Ok(Some(b"c) me\nrest".to_vec()))
    );
    assert_eq!(block.remove(b"// Copyright 2024\nx"), Ok(Some(Vec::new())));
}

#[test]
fn remove_of_the_block_alone_leaves_an_empty_file() {
    assert_eq!(copyright().remove(b"// Copyright 2024\n\n"), Ok(Some(Vec::new())));
}

#[test]
fn remove_from_file_shorter_than_the_block_is_malformed() {
    let block = copyright();
    assert_eq!(block.remove(b"// Copyright 2024"), Err(Error::MalformedHeader));
    assert_eq!(block.remove(b"// Copyright 2024\n"), Err(Error::MalformedHeader));
}

#[test]
fn rewrite_follows_the_mode() {
    let block = copyright();
    assert_eq!(
        block.rewrite(Mode::Insert, b"x"),
        Ok(Some(b"// Copyright 2024\n\nx".to_vec()))
    );
    assert_eq!(block.rewrite(Mode::Insert, b"// Copyright 2024\n\nx"), Ok(None));
    assert_eq!(block.rewrite(Mode::Remove, b"// Copyright 2024\n\nx"), Ok(Some(b"x".to_vec())));
    assert_eq!(block.rewrite(Mode::Remove, b"x"), Ok(None));
    assert_eq!(block.rewrite(Mode::Remove, b"// Copyright 2024\n"), Err(Error::MalformedHeader));
    assert_eq!(block.rewrite(Mode::Insert, b"// Copyright 2024\n"), Ok(None));
}

#[test]
fn insert_twice_is_insert_once() {
    let block = HeaderBlock::build(b"a\r\nb\n\n", b"#").unwrap();
    assert_eq!(block.as_bytes(), b"# a\n# b\n# \n\n");
    for content in [&b""[..], b"x", b"# a\n", b"# a\n# b\n#", b"# a\n# b\n# \n\nbody"] {
        let once = block.insert(content).unwrap_or(content.to_vec());
        assert_eq!(block.insert(&once), None);
        assert!(block.is_present(&once));
    }
}

#[test]
fn remove_after_insert_gives_the_file_back() {
    let block = HeaderBlock::build(b"a\r\nb\n\n", b"#").unwrap();
    for content in [&b""[..], b"x", b"\n", b"# a\n", b"# a\n# b\n", b" # a\n# b\n#", b"\n\nbody\n"] {
        assert!(!block.is_present(content));
        let inserted = block.insert(content).unwrap();
        assert_eq!(block.remove(&inserted), Ok(Some(content.to_vec())));
    }
}

#[test]
fn white_space_at_the_end_of_the_template_is_no_part_of_what_is_searched() {
    let block = HeaderBlock::build(b"x \t\n", b"//").unwrap();
    assert_eq!(block.as_bytes(), b"// x \t\n\n");
    assert!(block.is_present(b"// x"));
    assert!(block.is_present(b"// xyz"));
    assert!(!block.is_present(b"// "));
    let inserted = block.insert(b"code").unwrap();
    assert_eq!(inserted, b"// x \t\n\ncode".to_vec());
    assert_eq!(block.insert(&inserted), None);
    assert_eq!(block.remove(&inserted), Ok(Some(b"code".to_vec())));
}

#[test]
fn wide_white_space_at_the_end_of_the_template_is_trimmed_too() {
    let block = HeaderBlock::build("x\u{a0}\u{3000}".as_bytes(), b"//").unwrap();
    assert_eq!(block.as_bytes(), "// x\u{a0}\u{3000}\n\n".as_bytes());
    assert!(block.is_present(b"// x"));
    let inserted = block.insert(b"code").unwrap();
    assert_eq!(block.remove(&inserted), Ok(Some(b"code".to_vec())));
}

#[test]
fn block_that_begins_with_white_space_is_not_found_above_a_file() {
    let block = HeaderBlock::build(b"x", b" //").unwrap();
    assert_eq!(block.as_bytes(), b" // x\n\n");
    assert!(block.is_present(b"// x"));
    assert!(!block.is_present(block.as_bytes()));
    let once = block.insert(b"code").unwrap();
    assert_eq!(once, b" // x\n\ncode".to_vec());
    assert_eq!(block.insert(&once), Some(b" // x\n\n // x\n\ncode".to_vec()));
    assert_eq!(block.remove(&once), Ok(None));
}

#[test]
fn insert_gives_the_same_bytes_each_time() {
    let a = HeaderBlock::build(b"Copyright 2024", b"//").unwrap().insert(b"fn main() {}\n");
    let b = HeaderBlock::build(b"Copyright 2024", b"//").unwrap().insert(b"fn main() {}\n");
    assert_eq!(a, b);
}

#[test]
fn empty_template_block_is_found_in_every_file() {
    let block = HeaderBlock::build(b"", b"//").unwrap();
    assert!(block.is_present(b""));
    assert!(block.is_present(b"anything"));
    assert_eq!(block.insert(b"anything"), None);
    assert_eq!(block.remove(b"anything"), Ok(Some(b"nything".to_vec())));
    assert_eq!(block.remove(b""), Err(Error::MalformedHeader));
}
