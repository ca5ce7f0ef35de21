//! Which systemd unit each service package brings, and the commands that
//! enable them.

use vstd::prelude::*;
use crate::model::names;

verus! {

/// A row of the unit table: a package name, and the unit it brings (`None`
/// for a package without a unit of its own).
pub type UnitRow = (Seq<char>, Option<Seq<char>>);

/// The packages whose unit is not named like the package itself.
pub open spec fn unit_table() -> Seq<UnitRow> {
    seq![
        ("bluez"@, Some("bluetooth.service"@)),
        ("cups"@, Some("cups.service"@)),
        ("bluez_utils"@, None),
        ("hplip"@, None),
        ("samsung-unified-driver"@, None),
        ("samsung-unified-driver-printer"@, None),
    ]
}

/// The unit that the first row for `p` names, if a row names `p`.
pub open spec fn table_entry(t: Seq<UnitRow>, p: Seq<char>) -> Option<Option<Seq<char>>>
    decreases t.len(),
{
    if t.len() == 0 {
        None
    } else if t[0].0 == p {
        Some(t[0].1)
    } else {
        table_entry(t.drop_first(), p)
    }
}

/// Whether the unit table names `p` at all.
pub open spec fn in_unit_table(p: Seq<char>) -> bool {
    table_entry(unit_table(), p) is Some
}

/// Whether the unit table marks `p` as a package without a systemd unit.
pub open spec fn has_no_unit(p: Seq<char>) -> bool {
    table_entry(unit_table(), p) == Some(None::<Seq<char>>)
}

/// The systemd unit to enable for a package: what the table says, else the
/// package name itself.
pub open spec fn service_unit(p: Seq<char>) -> Option<Seq<char>> {
    match table_entry(unit_table(), p) {
        Some(u) => u,
        None => Some(p),
    }
}

pub open spec fn enable_line(unit: Seq<char>) -> Seq<char> {
    "sudo systemctl enable --now "@ + unit
}

/// The enable commands for a service selection, in selection order.
pub open spec fn enable_lines(s: Seq<Seq<char>>) -> Seq<Seq<char>>
    decreases s.len(),
{
    if s.len() == 0 {
        seq![]
    } else {
        let rest = enable_lines(s.drop_last());
        match service_unit(s.last()) {
            Some(u) => rest.push(enable_line(u)),
            None => rest,
        }
    }
}

pub open spec fn opt_view(o: Option<String>) -> Option<Seq<char>> {
    match o {
        Some(s) => Some(s@),
        None => None,
    }
}

pub open spec fn rows(v: Seq<(String, Option<String>)>) -> Seq<UnitRow> {
    v.map_values(|r: (String, Option<String>)| (r.0@, opt_view(r.1)))
}

fn row(package: &str, unit: Option<&str>) -> (r: (String, Option<String>))
    ensures
        r.0@ == package@,
        opt_view(r.1) == match unit {
            Some(u) => Some(u@),
            None => None::<Seq<char>>,
        },
{
    let unit = match unit {
        Some(u) => Some(String::from_str(u)),
        None => None,
    };
    (String::from_str(package), unit)
}

/// The rows of the unit table.
pub fn unit_rows() -> (r: Vec<(String, Option<String>)>)
    ensures
        rows(r@) == unit_table(),
{
    let mut t: Vec<(String, Option<String>)> = Vec::new();
    t.push(row("bluez", Some("bluetooth.service")));
    t.push(row("cups", Some("cups.service")));
    t.push(row("bluez_utils", None));
    t.push(row("hplip", None));
    t.push(row("samsung-unified-driver", None));
    t.push(row("samsung-unified-driver-printer", None));
    proof {
        assert(rows(t@) =~= unit_table());
    }
    t
}

proof fn lemma_table_entry_skip(t: Seq<UnitRow>, p: Seq<char>, i: int)
    requires
        0 <= i <= t.len(),
        forall|k: int| 0 <= k < i ==> (#[trigger] t[k]).0 != p,
    ensures
        table_entry(t, p) == table_entry(t.subrange(i, t.len() as int), p),
    decreases i,
{
    if i == 0 {
        assert(t.subrange(0, t.len() as int) =~= t);
    } else {
        lemma_table_entry_skip(t, p, i - 1);
        let s = t.subrange(i - 1, t.len() as int);
        assert(s[0] == t[i - 1]);
        assert(s.drop_first() =~= t.subrange(i, t.len() as int));
    }
}

/// The unit to enable for `package`, if any.
pub fn unit_for_package(package: &String) -> (r: Option<String>)
    ensures
        opt_view(r) == service_unit(package@),
{
    let table = unit_rows();
    let mut i: usize = 0;
    while i < table.len()
        invariant
            i <= table@.len(),
            rows(table@) == unit_table(),
            forall|k: int| 0 <= k < i ==> (#[trigger] rows(table@)[k]).0 != package@,
        decreases table@.len() - i,
    {
        if table[i].0 == *package {
            proof {
                lemma_table_entry_skip(unit_table(), package@, i as int);
                assert(unit_table().subrange(i as int, unit_table().len() as int)[0] == rows(
                    table@,
                )[i as int]);
            }
            return match &table[i].1 {
                Some(u) => Some(u.clone()),
                None => None,
            };
        }
        proof {
            assert(rows(table@)[i as int].0 == table@[i as int].0@);
        }
        i = i + 1;
    }
    proof {
        lemma_table_entry_skip(unit_table(), package@, i as int);
        assert(unit_table().subrange(i as int, unit_table().len() as int).len() == 0);
    }
    Some(package.clone())
}

/// The command that enables and starts the unit of each selected service;
/// a package without a unit gets none.
pub fn run_enable_services(services: &Vec<String>) -> (r: Vec<String>)
    ensures
        names(r@) == enable_lines(names(services@)),
{
    let mut out: Vec<String> = Vec::new();
    let mut i: usize = 0;
    while i < services.len()
        invariant
            i <= services@.len(),
            names(out@) == enable_lines(names(services@).subrange(0, i as int)),
        decreases services@.len() - i,
    {
        let ghost done = names(services@).subrange(0, i as int);
        let unit = unit_for_package(&services[i]);
        match unit {
            Some(u) => {
                out.push(String::from_str("sudo systemctl enable --now ").concat(u.as_str()));
            },
            None => {},
        }
        i = i + 1;
        proof {
            let now = names(services@).subrange(0, i as int);
            assert(now.drop_last() =~= done);
            assert(now.last() == services@[i - 1]@);
            assert(names(out@) =~= enable_lines(now));
        }
    }
    proof {
        assert(names(services@).subrange(0, i as int) =~= names(services@));
    }
    out
}

} // verus!
