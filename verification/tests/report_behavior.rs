use bounded_report::error::{DisplayCause, DmaBufCause, MasterConfigCause};
use bounded_report::Location as Loc;
use bounded_report::{Error, Report, ResultExt};

fn site(file: &str, line: u32, column: u32) -> Loc {
    Loc::caller(file, line, column)
}

fn seed<const N: usize>(file: &str, line: u32, column: u32) -> Report<N> {
    let r: Result<(), Error> = Err(Error::AdHoc(String::from("boom")));
    r.into_report(site(file, line, column)).err().unwrap()
}

fn propagate<const N: usize>(rep: Report<N>, file: &str, line: u32, column: u32) -> Report<N> {
    let r: Result<(), Report<N>> = Err(rep);
    r.into_report(site(file, line, column)).err().unwrap()
}

#[test]
fn within_capacity_keeps_every_site() {
    // k <= N propagation steps: length k, no overflow.
    let mut rep: Report<5> = seed("l1", 1, 1);
    rep = propagate(rep, "l2", 2, 2);
    rep = propagate(rep, "l3", 3, 3);
    assert_eq!(rep.backtrace.len(), 3);
    assert!(!rep.more);
}

#[test]
fn ordering_is_most_recent_first() {
    // Inserting L1 then L2 then L3 yields [L3, L2, L1].
    let mut rep: Report<5> = seed("l1", 1, 1);
    rep = propagate(rep, "l2", 2, 2);
    rep = propagate(rep, "l3", 3, 3);
    assert_eq!(rep.backtrace.get(0).file, "l3");
    assert_eq!(rep.backtrace.get(1).file, "l2");
    assert_eq!(rep.backtrace.get(2).file, "l1");
}

#[test]
fn beyond_capacity_caps_length_and_flags_overflow() {
    // k > N propagation steps: length N, overflow set, most recent first.
    let mut rep: Report<2> = seed("l1", 1, 1);
    rep = propagate(rep, "l2", 2, 2);
    rep = propagate(rep, "l3", 3, 3);
    assert_eq!(rep.backtrace.len(), 2);
    assert!(rep.more);
    assert_eq!(rep.backtrace.get(0).file, "l3");
    assert_eq!(rep.backtrace.get(1).file, "l2");
}

#[test]
fn success_values_pass_through_unchanged() {
    let ok: Result<u32, Error> = Ok(42);
    let through: Result<u32, Report<3>> = ok.into_report(site("here", 7, 7));
    assert_eq!(through.ok().unwrap(), 42);

    let ok: Result<u32, Report<3>> = Ok(99);
    let through = ok.into_report(site("there", 8, 8));
    assert_eq!(through.ok().unwrap(), 99);
}

#[test]
fn capacity_one_keeps_only_newest() {
    let mut rep: Report<1> = seed("l1", 1, 1);
    rep = propagate(rep, "l2", 2, 2);
    assert_eq!(rep.backtrace.len(), 1);
    assert!(rep.more);
    assert_eq!(rep.backtrace.get(0).file, "l2");
    assert_eq!(rep.backtrace.get(0).line, 2);
}

#[test]
fn scenario_seed_at_one_site() {
    // N = 3, raw error propagated at (a, 10, 1).
    let rep: Report<3> = seed("a", 10, 1);
    assert_eq!(rep.backtrace.len(), 1);
    assert!(!rep.more);
    assert_eq!(rep.backtrace.get(0).file, "a");
    assert_eq!(rep.backtrace.get(0).line, 10);
    assert_eq!(rep.backtrace.get(0).column, 1);
    assert!(matches!(rep.error, Error::AdHoc(ref m) if m.as_str() == "boom"));
}

#[test]
fn scenario_overflow_drops_the_oldest() {
    // Continue at (b, 20, 2), (c, 30, 3), (d, 40, 4): (a, 10, 1) is dropped.
    let mut rep: Report<3> = seed("a", 10, 1);
    rep = propagate(rep, "b", 20, 2);
    rep = propagate(rep, "c", 30, 3);
    rep = propagate(rep, "d", 40, 4);
    assert_eq!(rep.backtrace.len(), 3);
    assert!(rep.more);
    let first = rep.backtrace.get(0);
    assert_eq!((first.file.as_str(), first.line, first.column), ("d", 40, 4));
    let second = rep.backtrace.get(1);
    assert_eq!((second.file.as_str(), second.line, second.column), ("c", 30, 3));
    let third = rep.backtrace.get(2);
    assert_eq!((third.file.as_str(), third.line, third.column), ("b", 20, 2));
}

#[test]
fn fault_without_location() {
    // A runtime fault with no location: empty backtrace, no overflow, the
    // fixed fault marker as the error.
    let rep: Report<1> = Report::fault(None);
    assert_eq!(rep.backtrace.len(), 0);
    assert!(!rep.more);
    assert!(matches!(rep.error, Error::AdHoc(ref m) if m.as_str() == "panic"));
}

#[test]
fn fault_with_location() {
    let rep: Report<1> = Report::fault(Some(site("f", 5, 6)));
    assert_eq!(rep.backtrace.len(), 1);
    assert!(!rep.more);
    assert_eq!(rep.backtrace.get(0).file, "f");
    assert_eq!(rep.backtrace.get(0).line, 5);
    assert_eq!(rep.backtrace.get(0).column, 6);
}

#[test]
fn caller_keeps_short_files_whole() {
    let loc = site("exactly_32_characters_long_file!", 1, 2);
    assert_eq!(loc.file, "exactly_32_characters_long_file!");
    assert_eq!(loc.file.chars().count(), 32);
}

#[test]
fn caller_truncates_long_files() {
    let loc = site("a_file_identifier_that_is_much_too_long.rs", 1, 2);
    assert_eq!(loc.file.chars().count(), 32);
    assert_eq!(loc.file, "a_file_identifier_that_is_much_t");
}

#[test]
fn location_renders_as_file_line_column() {
    let loc = site("src/app.rs", 128, 9);
    assert_eq!(loc.render(), "src/app.rs:128:9");
    let zero = site("z", 0, 0);
    assert_eq!(zero.render(), "z:0:0");
    let big = site("b", u32::MAX, 10);
    assert_eq!(big.render(), "b:4294967295:10");
}

#[test]
fn raw_causes_seed_reports_directly() {
    let r: Result<(), DisplayCause> = Err(DisplayCause::CSError);
    let rep: Report<3> = r.into_report(site("init", 11, 3)).err().unwrap();
    assert!(matches!(rep.error, Error::Display(DisplayCause::CSError)));
    assert_eq!(rep.backtrace.len(), 1);
    assert!(!rep.more);
    assert_eq!(rep.backtrace.get(0).file, "init");

    let r: Result<(), MasterConfigCause> = Err(MasterConfigCause::UnsupportedFrequency);
    let rep: Report<3> = r.into_report(site("spi", 12, 4)).err().unwrap();
    assert!(matches!(
        rep.error,
        Error::Master(MasterConfigCause::UnsupportedFrequency)
    ));

    let r: Result<(), DmaBufCause> = Err(DmaBufCause::UnsupportedMemoryRegion);
    let rep: Report<3> = r.into_report(site("dma", 13, 5)).err().unwrap();
    assert!(matches!(
        rep.error,
        Error::DmaBuf(DmaBufCause::UnsupportedMemoryRegion)
    ));
}
