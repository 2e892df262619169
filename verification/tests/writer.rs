//! The budget writer on concrete values.

use std::cell::RefCell;
use std::fmt::{self, Write};

use alloc_budget::{AllocTracker, BudgetWriter, Error, ErrorKind, SizeCheck};

// Grants sizes up to `limit`; an error names the size it refuses.
fn up_to(limit: usize) -> impl Fn(usize) -> Result<(), Error> {
    move |size| {
        if size <= limit {
            Ok(())
        } else {
            Err(Error::new(ErrorKind::UnknownMethod, &size.to_string()))
        }
    }
}

fn other() -> Error {
    Error::new(ErrorKind::InvalidOperation, "other")
}

#[test]
fn granted_writes_concatenate() {
    let check = up_to(100);
    let mut writer = BudgetWriter::new(&check);
    assert!(writer.write_str("hello").is_ok());
    assert!(writer.write_str("").is_ok());
    assert!(writer.write_char(' ').is_ok());
    assert!(writer.write_str("world").is_ok());
    assert_eq!(writer.into_string(), "hello world");
}

#[test]
fn check_is_asked_for_the_length_to_come() {
    let asked = RefCell::new(Vec::new());
    let check = |size: usize| {
        asked.borrow_mut().push(size);
        Ok(())
    };
    let mut writer = BudgetWriter::with_capacity(1000, &check);
    assert!(asked.borrow().is_empty());
    writer.write_str("").unwrap();
    writer.write_str("ab").unwrap();
    // Three bytes in one character.
    writer.write_str("\u{20ac}").unwrap();
    writer.write_str("c").unwrap();
    assert_eq!(writer.into_string(), "ab\u{20ac}c");
    assert_eq!(*asked.borrow(), vec![0, 2, 5, 6]);
}

#[test]
fn refused_write_leaves_the_text_as_it_was() {
    let check = up_to(5);
    let mut writer = BudgetWriter::new(&check);
    assert_eq!(writer.write_str("abc"), Ok(()));
    assert_eq!(writer.write_str("def"), Err(fmt::Error));
    assert_eq!(writer.write_str("de"), Ok(()));
    assert_eq!(writer.into_string(), "abcde");
}

#[test]
fn finish_returns_the_text_on_success() {
    let check = up_to(5);
    let mut writer = BudgetWriter::new(&check);
    let rv = writer.write_str("abc");
    assert_eq!(writer.finish(rv).unwrap(), "abc");

    // Also where an earlier write was stopped.
    let mut writer = BudgetWriter::new(&check);
    assert!(writer.write_str("abcdef").is_err());
    assert_eq!(writer.finish(Ok(())).unwrap(), "");
}

#[test]
fn finish_returns_the_error_that_stopped_it() {
    let check = up_to(5);
    let mut writer = BudgetWriter::with_capacity(0, &check);
    let rv = writer.write_str("abc").and_then(|()| writer.write_str("defg"));
    let err = writer.finish(rv).unwrap_err();
    assert_eq!(err.kind(), ErrorKind::UnknownMethod);
    assert_eq!(err.detail(), "7");
}

#[test]
fn finish_without_a_stopped_write_is_a_format_failure() {
    let check = up_to(5);
    let err = BudgetWriter::new(&check).finish(Err(fmt::Error)).unwrap_err();
    assert_eq!(err.kind(), ErrorKind::InvalidOperation);
    assert_eq!(err.detail(), "failed to format value");
}

#[test]
fn last_refusal_is_kept() {
    let check = up_to(2);
    let mut writer = BudgetWriter::new(&check);
    assert!(writer.write_str("abc").is_err());
    assert!(writer.write_str("abcd").is_err());
    assert!(writer.write_str("ab").is_ok());
    let err = writer.finish(Err(fmt::Error)).unwrap_err();
    assert_eq!(err.detail(), "4");
}

#[test]
fn take_err_prefers_the_error_that_stopped_a_write() {
    let check = up_to(2);
    let mut writer = BudgetWriter::new(&check);
    assert_eq!(writer.take_err(other()).detail(), "other");
    assert!(writer.write_str("a").is_ok());
    assert!(writer.write_str("bcd").is_err());
    assert_eq!(writer.take_err(other()).detail(), "4");
    // It is handed out once.
    assert_eq!(writer.take_err(other()).detail(), "other");
    assert_eq!(writer.into_string(), "a");
}

#[test]
fn formatting_aborts_partway() {
    let tracker = AllocTracker::new(1000);
    tracker.charge(900).unwrap();
    let check = |size: usize| tracker.check(size);
    let mut writer = BudgetWriter::new(&check);
    let mut written = 0;
    let mut rv = Ok(());
    while rv.is_ok() && written < 1_000_000 {
        rv = writer.write_str("0123456789");
        written += 1;
    }
    assert_eq!(written, 11);
    let err = writer.finish(rv).unwrap_err();
    assert_eq!(err.kind(), ErrorKind::InvalidOperation);
    assert_eq!(err.detail(), "template allocation budget exceeded");
    // Nothing of it was charged.
    assert!(tracker.charge(100).is_ok());
}

#[test]
fn writer_stays_within_the_cap() {
    let tracker = AllocTracker::new(10);
    let check = |size: usize| tracker.check(size);
    let mut writer = BudgetWriter::new(&check);
    for piece in ["1234", "56789", "xyz", "0", "!"] {
        let _ = writer.write_str(piece);
    }
    assert_eq!(writer.into_string(), "1234567890");
}

#[test]
fn check_may_be_a_trait_object() {
    let tracker = AllocTracker::new(3);
    let closure = |size: usize| tracker.check(size);
    let object: &dyn Fn(usize) -> Result<(), Error> = &closure;
    let check: SizeCheck<'_, &dyn Fn(usize) -> Result<(), Error>> = &object;
    let mut writer = BudgetWriter::new(check);
    assert!(writer.write_str("abc").is_ok());
    assert!(writer.write_str("d").is_err());
}
