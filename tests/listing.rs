use objdir::listing::{Listing, ObjectInfo, RawEntry, Request, Stage};
use objdir::wide::string_to_wstring;

/// A stand-in for the object manager: one directory, the records of each
/// buffer fill, and the outcome of each link lookup.
struct FakeDirectory {
    open_status: i32,
    fills: Vec<Vec<(&'static str, &'static str)>>,
    links: Vec<(&'static str, i32, i32, &'static str)>,
}

struct Trace {
    result: Result<Vec<ObjectInfo>, i32>,
    opened_links: Vec<String>,
    restarts: Vec<bool>,
    closed_links: usize,
}

fn units(s: &str) -> Vec<u16> {
    s.encode_utf16().collect()
}

fn run(dir: &str, fake: &FakeDirectory) -> Trace {
    let (mut listing, mut request) = Listing::begin(dir);
    let mut fill = 0usize;
    let mut cursor = 0u32;
    let mut link: Option<(i32, &'static str)> = None;
    let mut trace = Trace { result: Err(0), opened_links: vec![], restarts: vec![], closed_links: 0 };
    loop {
        request = match request {
            Request::OpenDirectory(name) => {
                assert_eq!(name, string_to_wstring(dir));
                listing.on_opened(fake.open_status)
            }
            Request::QueryDirectory { restart } => {
                assert_eq!(listing.stage(), Stage::Querying);
                trace.restarts.push(restart);
                if fill < fake.fills.len() {
                    cursor += fake.fills[fill].len() as u32;
                    fill += 1;
                    listing.on_queried(0, cursor)
                } else {
                    listing.on_queried(0x8000001Au32 as i32, cursor)
                }
            }
            Request::ReadEntries(count) => {
                let records = &fake.fills[fill - 1];
                assert_eq!(count as usize, records.len());
                let entries = records
                    .iter()
                    .map(|(n, t)| RawEntry { name: units(n), typename: units(t) })
                    .collect();
                listing.on_entries(entries)
            }
            Request::OpenLink(name) => {
                let path = String::from_utf16(&name[..name.len() - 1]).unwrap();
                assert_eq!(name.last(), Some(&0));
                trace.opened_links.push(path.clone());
                let found = fake.links.iter().find(|l| l.0 == path).copied();
                let (open, query, target) = match found {
                    Some((_, open, query, target)) => (open, query, target),
                    None => (0xC0000034u32 as i32, 0, ""),
                };
                if open >= 0 {
                    link = Some((query, target));
                }
                listing.on_link_opened(open)
            }
            Request::QueryLink => {
                let (query, target) = link.unwrap();
                listing.on_link_queried(query, units(target))
            }
            Request::CloseLink => {
                trace.closed_links += 1;
                link = None;
                listing.on_link_closed()
            }
            Request::CloseDirectory => listing.on_closed(),
            Request::Finished(result) => {
                trace.result = result;
                return trace;
            }
        };
    }
}

fn listed(trace: &Trace) -> Vec<(String, String, String)> {
    trace
        .result
        .as_ref()
        .unwrap()
        .iter()
        .map(|o| (o.name.clone(), o.typename.clone(), o.target.clone()))
        .collect()
}

fn triple(n: &str, t: &str, g: &str) -> (String, String, String) {
    (n.to_string(), t.to_string(), g.to_string())
}

#[test]
fn root_directory_lists_three_directories() {
    let fake = FakeDirectory {
        open_status: 0,
        fills: vec![vec![
            ("BaseNamedObjects", "Directory"),
            ("Device", "Directory"),
            ("Global??", "Directory"),
        ]],
        links: vec![],
    };
    let trace = run("\\", &fake);
    let objects = listed(&trace);
    assert_eq!(
        objects,
        vec![
            triple("BaseNamedObjects", "Directory", ""),
            triple("Device", "Directory", ""),
            triple("Global??", "Directory", ""),
        ]
    );
    assert_eq!(format!("{} objects.", objects.len()), "3 objects.");
    assert!(trace.opened_links.is_empty());
}

#[test]
fn drive_link_resolves_to_volume() {
    let fake = FakeDirectory {
        open_status: 0,
        fills: vec![vec![("C:", "SymbolicLink")]],
        links: vec![("\\Global??\\C:", 0, 0, "\\Device\\HarddiskVolume3")],
    };
    let trace = run("\\Global??", &fake);
    assert_eq!(listed(&trace), vec![triple("C:", "SymbolicLink", "\\Device\\HarddiskVolume3")]);
    assert_eq!(trace.opened_links, vec!["\\Global??\\C:".to_string()]);
    assert_eq!(trace.closed_links, 1);
}

#[test]
fn entries_across_several_fills_keep_their_order() {
    let fake = FakeDirectory {
        open_status: 0,
        fills: vec![
            vec![("a", "Device"), ("b", "Event")],
            vec![("c", "Section"), ("d", "Device"), ("e", "Mutant")],
            vec![("f", "Directory")],
        ],
        links: vec![],
    };
    let trace = run("\\X", &fake);
    let names: Vec<String> = listed(&trace).into_iter().map(|o| o.0).collect();
    assert_eq!(names, vec!["a", "b", "c", "d", "e", "f"]);
    assert_eq!(trace.restarts, vec![true, false, false, false]);
}

#[test]
fn failed_open_gives_the_status_and_no_list() {
    let fake = FakeDirectory { open_status: 0xC0000034u32 as i32, fills: vec![], links: vec![] };
    let trace = run("\\Missing", &fake);
    assert_eq!(trace.result.err(), Some(0xC0000034u32 as i32));
    assert!(trace.restarts.is_empty());
}

#[test]
fn nonzero_success_code_on_open_is_reported() {
    let fake = FakeDirectory { open_status: 0x103, fills: vec![vec![("a", "Device")]], links: vec![] };
    let trace = run("\\", &fake);
    assert_eq!(trace.result.err(), Some(0x103));
}

#[test]
fn empty_directory_is_an_empty_success() {
    let fake = FakeDirectory { open_status: 0, fills: vec![], links: vec![] };
    let trace = run("\\Empty", &fake);
    assert_eq!(listed(&trace), vec![]);
    assert_eq!(trace.restarts, vec![true]);
}

#[test]
fn other_objects_have_no_target() {
    let fake = FakeDirectory {
        open_status: 0,
        fills: vec![vec![("Link", "Symboliclink"), ("Null", "Device")]],
        links: vec![("\\D\\Link", 0, 0, "\\Device\\Null")],
    };
    let trace = run("\\D", &fake);
    assert_eq!(
        listed(&trace),
        vec![triple("Link", "Symboliclink", ""), triple("Null", "Device", "")]
    );
    assert!(trace.opened_links.is_empty());
}

#[test]
fn link_that_cannot_be_opened_keeps_its_entry() {
    let fake = FakeDirectory {
        open_status: 0,
        fills: vec![vec![("Gone", "SymbolicLink"), ("Next", "Device")]],
        links: vec![],
    };
    let trace = run("\\D", &fake);
    assert_eq!(
        listed(&trace),
        vec![triple("Gone", "SymbolicLink", ""), triple("Next", "Device", "")]
    );
    assert_eq!(trace.closed_links, 0);
}

#[test]
fn link_whose_query_fails_keeps_its_entry_and_is_closed() {
    let fake = FakeDirectory {
        open_status: 0,
        fills: vec![vec![("L", "SymbolicLink")], vec![("M", "SymbolicLink")]],
        links: vec![("\\D\\L", 0, 0xC0000023u32 as i32, "ignored"), ("\\D\\M", 0, 0, "\\T")],
    };
    let trace = run("\\D", &fake);
    assert_eq!(
        listed(&trace),
        vec![triple("L", "SymbolicLink", ""), triple("M", "SymbolicLink", "\\T")]
    );
    assert_eq!(trace.closed_links, 2);
}

#[test]
fn cursor_that_does_not_move_reads_nothing() {
    let (mut listing, _) = Listing::begin("\\");
    assert!(matches!(listing.on_opened(0), Request::QueryDirectory { restart: true }));
    assert!(matches!(listing.on_queried(0, 0), Request::QueryDirectory { restart: false }));
    assert!(matches!(listing.on_queried(0, 2), Request::ReadEntries(2)));
    assert_eq!(listing.stage(), Stage::Reading);
}

#[test]
fn query_failure_closes_the_directory() {
    let (mut listing, _) = Listing::begin("\\");
    listing.on_opened(0);
    assert!(matches!(listing.on_queried(-1, 9), Request::CloseDirectory));
    assert_eq!(listing.stage(), Stage::Closing);
    match listing.on_closed() {
        Request::Finished(Ok(v)) => assert!(v.is_empty()),
        _ => panic!("expected an empty listing"),
    }
    assert_eq!(listing.stage(), Stage::Done);
}

#[test]
fn link_name_uses_the_decoded_entry_name() {
    let (mut listing, _) = Listing::begin("\\D");
    listing.on_opened(0);
    listing.on_queried(0, 1);
    let entry = RawEntry { name: vec![0x61, 0xDC00], typename: units("SymbolicLink") };
    match listing.on_entries(vec![entry]) {
        Request::OpenLink(name) => {
            assert_eq!(name, vec![0x5C, 0x44, 0x5C, 0x61, 0xFFFD, 0]);
        }
        _ => panic!("expected the link to be opened"),
    }
}

#[test]
fn undecodable_names_are_listed_with_replacement() {
    let (mut listing, _) = Listing::begin("\\");
    listing.on_opened(0);
    listing.on_queried(0, 1);
    let entry = RawEntry { name: vec![0xD800, 0x41], typename: units("Event") };
    assert!(matches!(listing.on_entries(vec![entry]), Request::QueryDirectory { restart: false }));
    listing.on_queried(-1, 1);
    match listing.on_closed() {
        Request::Finished(Ok(v)) => {
            assert_eq!(v.len(), 1);
            assert_eq!(v[0].name, "\u{FFFD}A");
            assert_eq!(v[0].typename, "Event");
        }
        _ => panic!("expected the listing"),
    }
}
