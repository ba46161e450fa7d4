use vstd::prelude::*;
use crate::error::ScanError;

verus! {

/// The value of the first option named `name`.
pub open spec fn option_value(options: Seq<(String, String)>, name: Seq<char>) -> Option<Seq<char>>
    decreases options.len(),
{
    if options.len() == 0 {
        None
    } else if options[0].0@ == name {
        Some(options[0].1@)
    } else {
        option_value(options.drop_first(), name)
    }
}

/// The value of the option `name`, or `MissingOption(name)` when absent.
pub fn require_option(name: &str, options: &Vec<(String, String)>) -> (r: Result<String, ScanError>)
    ensures
        match option_value(options@, name@) {
            Some(v) => r is Ok && r->Ok_0@ == v,
            None => r is Err && r->Err_0 is MissingOption && r->Err_0->MissingOption_0@ == name@,
        },
{
    let key = String::from_str(name);
    let mut i: usize = 0;
    assert(options@.subrange(0, options@.len() as int) =~= options@);
    while i < options.len()
        invariant
            i <= options@.len(),
            key@ == name@,
            option_value(options@, name@) == option_value(options@.subrange(i as int, options@.len() as int), name@),
        decreases options.len() - i,
    {
        assert(options@.subrange(i as int, options@.len() as int).drop_first()
            =~= options@.subrange(i + 1, options@.len() as int));
        if options[i].0 == key {
            return Ok(options[i].1.clone());
        }
        i = i + 1;
    }
    Err(ScanError::MissingOption(key))
}

/// The address of a sheet's contents as JSON.
pub open spec fn sheet_url_of(spread_sheet_id: Seq<char>, sheet_id: Seq<char>) -> Seq<char> {
    "https://docs.google.com/spreadsheets/d/"@ + spread_sheet_id + "/gviz/tq?gid="@ + sheet_id + "&tqx=out:json"@
}

/// The address of a sheet's contents as JSON.
pub fn sheet_url(spread_sheet_id: &str, sheet_id: &str) -> (r: String)
    ensures
        r@ == sheet_url_of(spread_sheet_id@, sheet_id@),
{
    let mut url = String::from_str("https://docs.google.com/spreadsheets/d/");
    url.append(spread_sheet_id);
    url.append("/gviz/tq?gid=");
    url.append(sheet_id);
    url.append("&tqx=out:json");
    url
}

/// The address to fetch for a scan, from the options `spread_sheet_id` and
/// `sheet_id`.
pub fn source_url(options: &Vec<(String, String)>) -> (r: Result<String, ScanError>)
    ensures
        match (option_value(options@, "spread_sheet_id"@), option_value(options@, "sheet_id"@)) {
            (Some(a), Some(b)) => r is Ok && r->Ok_0@ == sheet_url_of(a, b),
            (None, _) => r is Err && r->Err_0 is MissingOption && r->Err_0->MissingOption_0@ == "spread_sheet_id"@,
            (Some(_), None) => r is Err && r->Err_0 is MissingOption && r->Err_0->MissingOption_0@ == "sheet_id"@,
        },
{
    let spread_sheet_id = match require_option("spread_sheet_id", options) {
        Ok(v) => v,
        Err(e) => return Err(e),
    };
    let sheet_id = match require_option("sheet_id", options) {
        Ok(v) => v,
        Err(e) => return Err(e),
    };
    Ok(sheet_url(spread_sheet_id.as_str(), sheet_id.as_str()))
}

} // verus!
