//! Classification by extension: markdown, the asset set, and the `Other`
//! fallback, case-insensitively.

use gitscribe::file_type::{classify, FileType};

#[test]
fn classifies_markdown() {
    assert_eq!(classify("notes.md"), FileType::Markdown);
    assert_eq!(classify("a/b/c.md"), FileType::Markdown);
    assert_eq!(classify("README.MD"), FileType::Markdown);
    assert_eq!(classify("weird.Md"), FileType::Markdown);
}

#[test]
fn classifies_assets_any_case() {
    assert_eq!(classify("photo.jpg"), FileType::Asset);
    assert_eq!(classify("PHOTO.JPG"), FileType::Asset);
    assert_eq!(classify("photo.JpEg"), FileType::Asset);
    assert_eq!(classify("pic.png"), FileType::Asset);
    assert_eq!(classify("anim.gif"), FileType::Asset);
    assert_eq!(classify("logo.svg"), FileType::Asset);
    assert_eq!(classify("style.css"), FileType::Asset);
    assert_eq!(classify("script.js"), FileType::Asset);
    assert_eq!(classify("dir/with.dots/script.JS"), FileType::Asset);
}

#[test]
fn classifies_everything_else_as_other() {
    assert_eq!(classify("archive.tar"), FileType::Other);
    assert_eq!(classify("archive.tar.gz"), FileType::Other);
    assert_eq!(classify("Makefile"), FileType::Other);
    assert_eq!(classify(""), FileType::Other);
    assert_eq!(classify("notes.md.bak"), FileType::Other);
    assert_eq!(classify("md"), FileType::Other);
    assert_eq!(classify("file."), FileType::Other);
}

#[test]
fn dotfiles_have_no_extension() {
    assert_eq!(classify(".gitignore"), FileType::Other);
    assert_eq!(classify(".md"), FileType::Other);
    assert_eq!(classify("dir/.md"), FileType::Other);
    assert_eq!(classify("dir/.hidden"), FileType::Other);
}
