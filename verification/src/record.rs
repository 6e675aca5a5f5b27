//! One ranked candidate match for an address, as the external resolver hands
//! it back: a confidence rating, coordinate text, and normalized address
//! components, each of which may be absent.
//!
//! Coordinates are carried as decimal text (the resolver's numbers rendered
//! by the caller); a record is well formed when each coordinate it does carry
//! is a decimal number token, which is what structured rendering requires.

use vstd::prelude::*;
use crate::numeral::is_number_token;

verus! {

/// One candidate geocoding record.
#[derive(Debug)]
pub struct GeocodeOutput {
    /// Match-confidence rating; lower is better.
    pub rating: Option<i32>,
    /// Longitude, as decimal number text.
    pub lon: Option<String>,
    /// Latitude, as decimal number text.
    pub lat: Option<String>,
    /// House number.
    pub stno: Option<i32>,
    /// Street name.
    pub street: Option<String>,
    /// Street type abbreviation.
    pub styp: Option<String>,
    /// City.
    pub city: Option<String>,
    /// State abbreviation.
    pub state: Option<String>,
    /// Postal code.
    pub zip: Option<String>,
}

/// The mathematical value of a record: integers and character sequences.
pub ghost struct RecordV {
    pub rating: Option<int>,
    pub lon: Option<Seq<char>>,
    pub lat: Option<Seq<char>>,
    pub stno: Option<int>,
    pub street: Option<Seq<char>>,
    pub styp: Option<Seq<char>>,
    pub city: Option<Seq<char>>,
    pub state: Option<Seq<char>>,
    pub zip: Option<Seq<char>>,
}

pub open spec fn opt_int_view(o: Option<i32>) -> Option<int> {
    match o {
        Some(n) => Some(n as int),
        None => None,
    }
}

pub open spec fn opt_str_view(o: Option<String>) -> Option<Seq<char>> {
    match o {
        Some(s) => Some(s@),
        None => None,
    }
}

impl View for GeocodeOutput {
    type V = RecordV;

    open spec fn view(&self) -> RecordV {
        RecordV {
            rating: opt_int_view(self.rating),
            lon: opt_str_view(self.lon),
            lat: opt_str_view(self.lat),
            stno: opt_int_view(self.stno),
            street: opt_str_view(self.street),
            styp: opt_str_view(self.styp),
            city: opt_str_view(self.city),
            state: opt_str_view(self.state),
            zip: opt_str_view(self.zip),
        }
    }
}

impl DeepView for GeocodeOutput {
    type V = RecordV;

    open spec fn deep_view(&self) -> RecordV {
        self.view()
    }
}

/// A coordinate field is acceptable when absent or a decimal number token.
pub open spec fn coord_wf(c: Option<Seq<char>>) -> bool {
    match c {
        Some(s) => is_number_token(s),
        None => true,
    }
}

/// A record is well formed when both coordinates it carries are decimal
/// number tokens.
pub open spec fn record_wf(r: RecordV) -> bool {
    coord_wf(r.lon) && coord_wf(r.lat)
}

fn clone_opt_string(o: &Option<String>) -> (r: Option<String>)
    ensures
        r == *o,
{
    match o {
        Some(s) => Some(s.clone()),
        None => None,
    }
}

impl Clone for GeocodeOutput {
    fn clone(&self) -> (r: GeocodeOutput)
        ensures
            r == *self,
    {
        GeocodeOutput {
            rating: self.rating,
            lon: clone_opt_string(&self.lon),
            lat: clone_opt_string(&self.lat),
            stno: self.stno,
            street: clone_opt_string(&self.street),
            styp: clone_opt_string(&self.styp),
            city: clone_opt_string(&self.city),
            state: clone_opt_string(&self.state),
            zip: clone_opt_string(&self.zip),
        }
    }
}

} // verus!
