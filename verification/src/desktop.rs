//! Desktop-session descriptors: the name and launch command extracted from
//! `.desktop` entry files. Reading directories is the caller's business; this
//! module decides, for the bytes of one file, whether they yield a descriptor.

use vstd::prelude::*;

verus! {

/// One discoverable desktop session: a display name and the command that
/// launches it. A descriptor has no identity beyond its content.
#[derive(Debug)]
pub struct DesktopEnvironmentFile {
    pub name: String,
    pub command: String,
}

/// The value of attribute `attr` in section `section` of a desktop-entry
/// document with the given bytes, or `None` when the document does not parse,
/// the section is absent, or the attribute is absent. The value is a function
/// of the three arguments alone.
pub uninterp spec fn entry_attr_value(bytes: Seq<u8>, section: Seq<char>, attr: Seq<char>) -> Option<
    Seq<char>,
>;

/// The `Name` attribute of the `Desktop Entry` section.
pub open spec fn spec_desktop_name(bytes: Seq<u8>) -> Option<Seq<char>> {
    entry_attr_value(bytes, "Desktop Entry"@, "Name"@)
}

/// The launch command: the `Exec` attribute of the `Desktop Entry` section.
pub open spec fn spec_desktop_command(bytes: Seq<u8>) -> Option<Seq<char>> {
    entry_attr_value(bytes, "Desktop Entry"@, "Exec"@)
}

/// Relies on `freedesktop_entry_parser`: `Entry::parse` followed by
/// `Entry::get`. The parse and the lookup depend on the input bytes and the
/// two names alone; a file that does not parse yields no value, and an absent
/// section or attribute yields no value.
#[verifier::external_body]
fn entry_attr(bytes: &Vec<u8>, section: &str, attr: &str) -> (r: Option<String>)
    ensures
        r.deep_view() == entry_attr_value(bytes@, section@, attr@),
{
    match freedesktop_entry_parser::Entry::parse(bytes) {
        Ok(entry) => match entry.get(section, attr) {
            Some(values) => values.first().cloned(),
            None => None,
        },
        Err(_) => None,
    }
}

/// A descriptor exists exactly when both the name and the command are present;
/// a file missing either is skipped.
pub fn build_descriptor(name: Option<String>, command: Option<String>) -> (r: Option<
    DesktopEnvironmentFile,
>)
    ensures
        match (name, command) {
            (Some(n), Some(c)) => (r matches Some(d) && d.name == n && d.command == c),
            _ => r is None,
        },
{
    match (name, command) {
        (Some(n), Some(c)) => Some(DesktopEnvironmentFile { name: n, command: c }),
        _ => None,
    }
}

/// Parse the bytes of one descriptor file. The result is `Some` exactly when
/// the `Desktop Entry` section carries both a `Name` and an `Exec` attribute,
/// and then holds those two values.
pub fn parse_descriptor(bytes: &Vec<u8>) -> (r: Option<DesktopEnvironmentFile>)
    ensures
        match (spec_desktop_name(bytes@), spec_desktop_command(bytes@)) {
            (Some(n), Some(c)) => (r matches Some(d) && d.name@ == n && d.command@ == c),
            _ => r is None,
        },
{
    let name = entry_attr(bytes, "Desktop Entry", "Name");
    let command = entry_attr(bytes, "Desktop Entry", "Exec");
    build_descriptor(name, command)
}

/// The descriptors among `s`, in order, skipping the files that yielded none.
pub open spec fn spec_collect(s: Seq<Option<DesktopEnvironmentFile>>) -> Seq<
    DesktopEnvironmentFile,
>
    decreases s.len(),
{
    if s.len() == 0 {
        Seq::empty()
    } else {
        match s[0] {
            Some(d) => seq![d] + spec_collect(s.drop_first()),
            None => spec_collect(s.drop_first()),
        }
    }
}

/// Keep the files that yielded a descriptor, in the order they came.
pub fn collect_descriptors(entries: Vec<Option<DesktopEnvironmentFile>>) -> (r: Vec<
    DesktopEnvironmentFile,
>)
    ensures
        r@ == spec_collect(entries@),
{
    let ghost orig: Seq<Option<DesktopEnvironmentFile>> = entries@;
    let mut rest = entries;
    let mut out: Vec<DesktopEnvironmentFile> = Vec::new();
    proof {
        assert(out@ + spec_collect(rest@) =~= spec_collect(orig));
    }
    while rest.len() > 0
        invariant
            spec_collect(orig) == out@ + spec_collect(rest@),
        decreases rest.len(),
    {
        let ghost before: Seq<Option<DesktopEnvironmentFile>> = rest@;
        let e = rest.remove(0);
        let ghost e_snap: Option<DesktopEnvironmentFile> = e;
        proof {
            assert(rest@ =~= before.drop_first());
            assert(e_snap == before[0]);
        }
        match e {
            Some(d) => {
                let ghost prev_out: Seq<DesktopEnvironmentFile> = out@;
                out.push(d);
                proof {
                    assert(out@ == prev_out.push(e_snap->0));
                    assert(spec_collect(before) == seq![e_snap->0] + spec_collect(
                        before.drop_first(),
                    ));
                    assert(prev_out + spec_collect(before) =~= out@ + spec_collect(rest@));
                }
            },
            None => {
                proof {
                    assert(spec_collect(before) == spec_collect(before.drop_first()));
                }
            },
        }
    }
    proof {
        assert(out@ + spec_collect(rest@) =~= out@);
    }
    out
}

} // verus!
