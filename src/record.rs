use vstd::prelude::*;
use crate::json::{
    array_member, array_member_spec, json_accepts, json_of, parse_json, string_member,
    string_member_spec, Json, JsonView,
};

verus! {

/// One package as the remote index describes it. A field the index left out
/// is `None`; defaults are put in only when the record is shown.
#[derive(Debug, Clone)]
pub struct PackageRecord {
    pub name: Option<String>,
    pub version: Option<String>,
    pub description: Option<String>,
}

/// The mathematical value of a [`PackageRecord`].
pub struct RecordView {
    pub name: Option<Seq<char>>,
    pub version: Option<Seq<char>>,
    pub description: Option<Seq<char>>,
}

/// The value of an optional string.
pub open spec fn opt_view(o: Option<String>) -> Option<Seq<char>> {
    match o {
        Some(s) => Some(s@),
        None => None,
    }
}

impl View for PackageRecord {
    type V = RecordView;

    open spec fn view(&self) -> RecordView {
        RecordView {
            name: opt_view(self.name),
            version: opt_view(self.version),
            description: opt_view(self.description),
        }
    }
}

/// The values of a list of records.
pub open spec fn records_view(recs: Seq<PackageRecord>) -> Seq<RecordView> {
    recs.map_values(|r: PackageRecord| r@)
}

/// Why a lookup in the remote index gave no list of records.
#[derive(Debug, Clone, Copy, PartialEq, Eq, Structural)]
pub enum FetchError {
    /// The request did not complete.
    Network,
    /// The answer was not JSON, or had no `results` array.
    Decode,
}

/// The text shown for an optional field: its value, or the default.
pub open spec fn shown(field: Option<Seq<char>>, default: Seq<char>) -> Seq<char> {
    match field {
        Some(s) => s,
        None => default,
    }
}

/// The three lines that present a package before it is installed.
pub open spec fn info_lines(rec: RecordView) -> Seq<Seq<char>> {
    seq![
        "Name: "@ + shown(rec.name, "Unknown"@),
        "Version: "@ + shown(rec.version, "Unknown"@),
        "Description: "@ + shown(rec.description, "No description"@),
    ]
}

/// The two lines that present one match of a search.
pub open spec fn search_entry(rec: RecordView) -> Seq<Seq<char>> {
    seq![
        "aur/"@ + shown(rec.name, "Unknown"@) + " "@ + shown(rec.version, "Unknown"@),
        "  "@ + shown(rec.description, "Unknown"@),
    ]
}

/// The lines that present every match of a search, in the index's order.
pub open spec fn search_listing(recs: Seq<RecordView>) -> Seq<Seq<char>>
    decreases recs.len(),
{
    if recs.len() == 0 {
        Seq::empty()
    } else {
        search_listing(recs.drop_last()) + search_entry(recs.last())
    }
}

/// The value of an optional field, or the default when it is absent.
pub fn shown_text(field: &Option<String>, default: &str) -> (r: String)
    ensures
        r@ == shown(opt_view(*field), default@),
{
    match field {
        Some(s) => s.clone(),
        None => String::from_str(default),
    }
}

/// The lines that present a package before it is installed.
pub fn display_lines(rec: &PackageRecord) -> (r: Vec<String>)
    ensures
        r.deep_view() == info_lines(rec@),
{
    let name = String::from_str("Name: ").concat(shown_text(&rec.name, "Unknown").as_str());
    let version = String::from_str("Version: ").concat(
        shown_text(&rec.version, "Unknown").as_str(),
    );
    let description = String::from_str("Description: ").concat(
        shown_text(&rec.description, "No description").as_str(),
    );
    let r = vec![name, version, description];
    assert(r.deep_view() =~= info_lines(rec@));
    r
}

/// The lines that present every match of a search.
pub fn search_lines(recs: &Vec<PackageRecord>) -> (r: Vec<String>)
    ensures
        r.deep_view() == search_listing(records_view(recs@)),
{
    let mut lines: Vec<String> = Vec::new();
    let mut i: usize = 0;
    assert(records_view(recs@.take(0)) =~= Seq::<RecordView>::empty());
    assert(lines.deep_view() =~= Seq::<Seq<char>>::empty());
    while i < recs.len()
        invariant
            0 <= i <= recs.len(),
            lines.deep_view() == search_listing(records_view(recs@.take(i as int))),
        decreases recs.len() - i,
    {
        let rec = &recs[i];
        let head = String::from_str("aur/").concat(shown_text(&rec.name, "Unknown").as_str()).concat(
            " ",
        ).concat(shown_text(&rec.version, "Unknown").as_str());
        let body = String::from_str("  ").concat(shown_text(&rec.description, "Unknown").as_str());
        let ghost before = lines.deep_view();
        lines.push(head);
        lines.push(body);
        proof {
            assert(records_view(recs@.take(i + 1)).drop_last() =~= records_view(
                recs@.take(i as int),
            ));
            assert(records_view(recs@.take(i + 1)).last() == rec@);
            assert(lines.deep_view() =~= before + search_entry(rec@));
        }
        i = i + 1;
    }
    assert(recs@.take(recs.len() as int) =~= recs@);
    assert(records_view(recs@.take(recs.len() as int)) == records_view(recs@));
    lines
}

/// The record that one element of the index's `results` describes: its
/// string members `Name`, `Version` and `Description`.
pub open spec fn record_spec(j: JsonView) -> RecordView {
    RecordView {
        name: string_member_spec(j, "Name"@),
        version: string_member_spec(j, "Version"@),
        description: string_member_spec(j, "Description"@),
    }
}

/// The records of an answer of the index: one for each element of its
/// `results` array, in order; `None` when the answer has no such array.
pub open spec fn results_spec(j: JsonView) -> Option<Seq<RecordView>> {
    match array_member_spec(j, "results"@) {
        Some(items) => Some(items.map_values(|e: JsonView| record_spec(e))),
        None => None,
    }
}

/// Reads a package record from one element of the index's `results`.
pub fn record_of(j: &Json) -> (r: PackageRecord)
    ensures
        r@ == record_spec(j@),
{
    PackageRecord {
        name: string_member(j, "Name"),
        version: string_member(j, "Version"),
        description: string_member(j, "Description"),
    }
}

/// Reads the package records of an answer of the index.
pub fn records_of(j: &Json) -> (r: Option<Vec<PackageRecord>>)
    ensures
        match r {
            Some(recs) => results_spec(j@) == Some(records_view(recs@)),
            None => results_spec(j@) is None,
        },
{
    let items = match array_member(j, "results") {
        Some(items) => items,
        None => {
            return None;
        },
    };
    let ghost item_views = Seq::new(items@.len(), |i: int| items@[i]@);
    let mut recs: Vec<PackageRecord> = Vec::new();
    let mut i: usize = 0;
    while i < items.len()
        invariant
            0 <= i <= items@.len(),
            item_views == Seq::new(items@.len(), |i: int| items@[i]@),
            recs@.len() == i,
            forall|k: int| 0 <= k < i ==> (#[trigger] recs@[k])@ == record_spec(item_views[k]),
        decreases items.len() - i,
    {
        let rec = record_of(&items[i]);
        recs.push(rec);
        i = i + 1;
    }
    assert(records_view(recs@) =~= item_views.map_values(|e: JsonView| record_spec(e)));
    Some(recs)
}

/// Decodes an answer of the remote index into its package records, one for
/// each element of its `results` array, in order. A text that is not JSON,
/// or has no `results` array, is refused.
pub fn decode_records(body: &str) -> (r: Result<Vec<PackageRecord>, FetchError>)
    ensures
        match r {
            Ok(recs) => json_accepts(body@) && results_spec(json_of(body@)) == Some(
                records_view(recs@),
            ),
            Err(e) => e == FetchError::Decode && (!json_accepts(body@) || results_spec(
                json_of(body@),
            ) is None),
        },
{
    match parse_json(body) {
        Ok(value) => match records_of(&value) {
            Some(recs) => Ok(recs),
            None => Err(FetchError::Decode),
        },
        Err(_) => Err(FetchError::Decode),
    }
}

} // verus!
