use vstd::prelude::*;

use crate::text::{decimal_value, join2, parse_u32, parse_u32_spec, split_words, strs, words};

verus! {

/// A screen rectangle chosen by the user with the selection tool.
pub struct Region {
    pub x: u32,
    pub y: u32,
    pub width: u32,
    pub height: u32,
    /// The rectangle in the tool's own notation (`WxH+X+Y`).
    pub geometry: String,
    pub selection_id: String,
}

/// Why the selection tool's output gave no region.
#[derive(Clone, Copy, Debug, PartialEq, Eq, Structural)]
pub enum SelectionError {
    /// The user backed out of the selection.
    Cancelled,
    /// The output is not six words of the expected shape.
    Malformed,
}

/// Whether one of the words is the tool's cancellation marker.
pub open spec fn has_cancel(ws: Seq<Seq<char>>) -> bool {
    exists|i: int| 0 <= i < ws.len() && #[trigger] ws[i] == "Cancel"@
}

/// Six words, of which the first four are unsigned numbers.
pub open spec fn well_formed(ws: Seq<Seq<char>>) -> bool {
    &&& ws.len() == 6
    &&& parse_u32_spec(ws[0]) is Some
    &&& parse_u32_spec(ws[1]) is Some
    &&& parse_u32_spec(ws[2]) is Some
    &&& parse_u32_spec(ws[3]) is Some
}

/// What parsing the output `s` yields.
pub open spec fn selection_result(s: Seq<char>, r: Result<Region, SelectionError>) -> bool {
    let ws = words(s);
    match r {
        Ok(reg) => {
            &&& !has_cancel(ws)
            &&& well_formed(ws)
            &&& reg.x as int == decimal_value(ws[0])
            &&& reg.y as int == decimal_value(ws[1])
            &&& reg.width as int == decimal_value(ws[2])
            &&& reg.height as int == decimal_value(ws[3])
            &&& reg.geometry@ == ws[4]
            &&& reg.selection_id@ == ws[5]
        },
        Err(SelectionError::Cancelled) => has_cancel(ws),
        Err(SelectionError::Malformed) => !has_cancel(ws) && !well_formed(ws),
    }
}

/// Whether one of the words is `Cancel`.
pub fn contains_cancel(ws: &Vec<String>) -> (r: bool)
    ensures
        r == has_cancel(strs(ws@)),
{
    let cancel = String::from_str("Cancel");
    let mut i: usize = 0;
    while i < ws.len()
        invariant
            i <= ws@.len(),
            cancel@ == "Cancel"@,
            forall|j: int| 0 <= j < i ==> #[trigger] strs(ws@)[j] != "Cancel"@,
        decreases ws@.len() - i,
    {
        assert(strs(ws@)[i as int] == ws@[i as int]@);
        if ws[i] == cancel {
            return true;
        }
        i += 1;
    }
    false
}

/// Parses the selection tool's output `x y w h geometry id`, split at any whitespace.
/// A `Cancel` word anywhere means the user backed out, whatever the other words are.
pub fn parse_selection(output: &str) -> (r: Result<Region, SelectionError>)
    ensures
        selection_result(output@, r),
{
    let ws = split_words(output);
    if contains_cancel(&ws) {
        return Err(SelectionError::Cancelled);
    }
    if ws.len() != 6 {
        return Err(SelectionError::Malformed);
    }
    assert(strs(ws@)[0] == ws@[0]@);
    assert(strs(ws@)[1] == ws@[1]@);
    assert(strs(ws@)[2] == ws@[2]@);
    assert(strs(ws@)[3] == ws@[3]@);
    assert(strs(ws@)[4] == ws@[4]@);
    assert(strs(ws@)[5] == ws@[5]@);
    let x = parse_u32(ws[0].as_str());
    let y = parse_u32(ws[1].as_str());
    let w = parse_u32(ws[2].as_str());
    let h = parse_u32(ws[3].as_str());
    match (x, y, w, h) {
        (Some(x), Some(y), Some(w), Some(h)) => Ok(
            Region {
                x,
                y,
                width: w,
                height: h,
                geometry: ws[4].clone(),
                selection_id: ws[5].clone(),
            },
        ),
        _ => Err(SelectionError::Malformed),
    }
}

/// What parsing the Wayland selector's output `s` (`X,Y WxH`) yields.
pub open spec fn area_result(s: Seq<char>, r: Result<String, SelectionError>) -> bool {
    let ws = words(s);
    match r {
        Ok(a) => !has_cancel(ws) && ws.len() == 2 && a@ == ws[0] + " "@ + ws[1],
        Err(SelectionError::Cancelled) => has_cancel(ws),
        Err(SelectionError::Malformed) => !has_cancel(ws) && ws.len() != 2,
    }
}

/// Reads the Wayland selector's output: two words, the offset and the size,
/// given back with a single space between them.
pub fn parse_area(output: &str) -> (r: Result<String, SelectionError>)
    ensures
        area_result(output@, r),
{
    let ws = split_words(output);
    if contains_cancel(&ws) {
        return Err(SelectionError::Cancelled);
    }
    if ws.len() != 2 {
        return Err(SelectionError::Malformed);
    }
    assert(strs(ws@)[0] == ws@[0]@);
    assert(strs(ws@)[1] == ws@[1]@);
    let mut a = join2(ws[0].as_str(), " ");
    a.append(ws[1].as_str());
    Ok(a)
}

} // verus!
