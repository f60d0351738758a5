//! Read-only, ordered rendering of the registry for display.
use vstd::prelude::*;
use crate::registry::{precedes, EntryView, Registry, WindowEntry, WindowKey};
use crate::text::{decimal, decimal_text};

verus! {

/// Display cap on titles, in characters.
pub const TITLE_CAP: usize = 80;

/// `s` cut to at most `max` characters: a longer text keeps its first
/// `max - 1` characters followed by an ellipsis.
pub open spec fn truncated(s: Seq<char>, max: nat) -> Seq<char> {
    if s.len() <= max {
        s
    } else {
        s.take(if max == 0 { 0 } else { max - 1 }) + seq!['\u{2026}']
    }
}

/// Cuts `s` to the display cap `max`.
pub fn truncate(s: &str, max: usize) -> (r: String)
    ensures
        r@ == truncated(s@, max as nat),
{
    let n = s.unicode_len();
    if n <= max {
        return String::from_str(s);
    }
    let keep: usize = if max == 0 { 0 } else { max - 1 };
    let head = String::from_str(s.substring_char(0, keep));
    proof {
        reveal_strlit("\u{2026}");
    }
    let r = head.concat("\u{2026}");
    assert(r@ =~= truncated(s@, max as nat));
    r
}

/// A title of exactly the cap is kept whole; one character longer, it keeps
/// all but its last two characters and gains an ellipsis, which brings it
/// back to the cap.
pub proof fn lemma_truncation_at_cap(s: Seq<char>, cap: nat)
    requires
        cap >= 1,
    ensures
        s.len() == cap ==> truncated(s, cap) == s,
        s.len() == cap + 1 ==> truncated(s, cap) == s.take(cap - 1).push('\u{2026}') && truncated(s, cap).len()
            == cap,
{
    if s.len() == cap + 1 {
        assert(s.take(cap - 1) + seq!['\u{2026}'] =~= s.take(cap - 1).push('\u{2026}'));
    }
}

/// Header of a report: the entry count with its singular or plural noun,
/// and the refresh time.
pub open spec fn header_text(count: nat, timestamp: Seq<char>) -> Seq<char> {
    "WinApps Monitor Window List - "@ + decimal_text(count) + (if count == 1 {
        " Entry"@
    } else {
        " Entries"@
    }) + " - Last Refresh: "@ + timestamp
}

/// Builds the header of a report.
pub fn render_header(count: u64, timestamp: &str) -> (r: String)
    ensures
        r@ == header_text(count as nat, timestamp@),
{
    let mut r = String::from_str("WinApps Monitor Window List - ");
    let digits = decimal(count);
    r.append(digits.as_str());
    if count == 1 {
        r.append(" Entry");
    } else {
        r.append(" Entries");
    }
    r.append(" - Last Refresh: ");
    r.append(timestamp);
    r
}

/// One line of a report.
pub struct ReportRow {
    pub key: WindowKey,
    pub pid: u32,
    /// The title cut to [`TITLE_CAP`] characters.
    pub title: String,
}

/// A rendered snapshot: header and rows in display order.
pub struct Report {
    pub header: String,
    pub rows: Vec<ReportRow>,
}

/// `rows` lists every entry of `m` once, in display order, with titles cut
/// to the display cap.
pub open spec fn rows_report(rows: Seq<ReportRow>, m: Map<WindowKey, EntryView>) -> bool {
    &&& forall|a: int, b: int|
        0 <= a < b < rows.len() ==> #[trigger] precedes(rows[a].key, rows[a].pid, rows[b].key, rows[b].pid)
    &&& forall|r: int| 0 <= r < rows.len() ==> {
        &&& #[trigger] m.contains_key(rows[r].key)
        &&& m[rows[r].key].pid == rows[r].pid
        &&& rows[r].title@ == truncated(m[rows[r].key].title, TITLE_CAP as nat)
    }
    &&& forall|k: WindowKey| #[trigger] m.contains_key(k) ==> exists|r: int| 0 <= r < rows.len() && rows[r].key == k
}

/// `rows` copies `snapshot` in order, with titles cut to the display cap.
pub open spec fn rows_cut(rows: Seq<ReportRow>, snapshot: Seq<(WindowKey, WindowEntry)>) -> bool {
    &&& rows.len() == snapshot.len()
    &&& forall|r: int| 0 <= r < rows.len() ==> {
        &&& #[trigger] rows[r].key == snapshot[r].0
        &&& rows[r].pid == snapshot[r].1.pid
        &&& rows[r].title@ == truncated(snapshot[r].1.title@, TITLE_CAP as nat)
    }
}

/// The rows of a report on a snapshot.
pub fn report_rows(snapshot: &Vec<(WindowKey, WindowEntry)>) -> (rows: Vec<ReportRow>)
    ensures
        rows_cut(rows@, snapshot@),
{
    let mut rows: Vec<ReportRow> = Vec::new();
    let mut i: usize = 0;
    while i < snapshot.len()
        invariant
            i <= snapshot@.len(),
            rows@.len() == i,
            forall|r: int| 0 <= r < i ==> {
                &&& #[trigger] rows@[r].key == snapshot@[r].0
                &&& rows@[r].pid == snapshot@[r].1.pid
                &&& rows@[r].title@ == truncated(snapshot@[r].1.title@, TITLE_CAP as nat)
            },
        decreases snapshot@.len() - i,
    {
        let title = truncate(snapshot[i].1.title.as_str(), TITLE_CAP);
        rows.push(ReportRow { key: snapshot[i].0, pid: snapshot[i].1.pid, title });
        i = i + 1;
    }
    rows
}

/// Renders a snapshot taken earlier: its windows in display order with
/// titles cut to the display cap, under a header stamped `timestamp`.
pub fn render(snapshot: &Registry, timestamp: &str) -> (r: Report)
    ensures
        rows_report(r.rows@, snapshot@),
        r.header@ == header_text(r.rows@.len() as nat, timestamp@),
{
    let ordered = snapshot.ordered_rows();
    let ghost sv = ordered@;
    let rows = report_rows(&ordered);
    let header = render_header(rows.len() as u64, timestamp);
    proof {
        let rs = rows@;
        assert forall|a: int, b: int| 0 <= a < b < rs.len() implies #[trigger] precedes(
            rs[a].key,
            rs[a].pid,
            rs[b].key,
            rs[b].pid,
        ) by {
            assert(rs[a].key == sv[a].0 && rs[b].key == sv[b].0);
            assert(precedes(sv[a].0, sv[a].1.pid, sv[b].0, sv[b].1.pid));
        }
        assert forall|i: int| 0 <= i < rs.len() implies {
            &&& #[trigger] snapshot@.contains_key(rs[i].key)
            &&& snapshot@[rs[i].key].pid == rs[i].pid
            &&& rs[i].title@ == truncated(snapshot@[rs[i].key].title, TITLE_CAP as nat)
        } by {
            assert(rs[i].key == sv[i].0);
            assert(snapshot@.contains_key(sv[i].0));
        }
        assert forall|k: WindowKey| #[trigger] snapshot@.contains_key(k) implies exists|i: int|
            0 <= i < rs.len() && rs[i].key == k by {
            let i = choose|i: int| 0 <= i < sv.len() && sv[i].0 == k;
            assert(rs[i].key == sv[i].0);
        }
    }
    Report { header, rows }
}

} // verus!
