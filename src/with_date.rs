use vstd::prelude::*;
use vstd::string::*;
use crate::number::{Decimal, decimal_of, find_char, first_index_of, parse_decimal};
use crate::units::{Reading, Unit};

verus! {

/// Why a value-with-date cell could not be read.
#[derive(Debug, Clone, Copy, PartialEq, Eq, Structural)]
pub enum WithDateError {
    /// The text before `(` is not a number.
    EmptyValue,
    /// There is no `(`.
    MissingDate,
    /// No `)` follows the `(`.
    MissingClosingParen,
    /// Something follows the `)`.
    TrailingContent,
}

/// A measurement with the date on which it was taken, written in a cell as
/// `<number>(<date>)`. The date is kept as written.
#[derive(Debug)]
pub struct WithDate<T> {
    pub value: T,
    pub date: String,
}

/// What a value-with-date cell decodes to: the number before the first `(`,
/// and the text from there to the first `)`, which must end the cell.
pub open spec fn with_date_of(s: Seq<char>) -> Result<(Decimal, Seq<char>), WithDateError> {
    let open = first_index_of(s, '(');
    match decimal_of(s.take(open)) {
        None => Err(WithDateError::EmptyValue),
        Some(v) => if open == s.len() {
            Err(WithDateError::MissingDate)
        } else {
            let rest = s.skip(open + 1);
            let close = first_index_of(rest, ')');
            if close == rest.len() {
                Err(WithDateError::MissingClosingParen)
            } else if close + 1 < rest.len() {
                Err(WithDateError::TrailingContent)
            } else {
                Ok((v, rest.take(close)))
            }
        },
    }
}

/// Whether `r` is what decoding the cell `s` gives in the unit `U`.
pub open spec fn with_date_result<U: Unit>(
    s: Seq<char>,
    r: Result<WithDate<U>, WithDateError>,
) -> bool {
    match with_date_of(s) {
        Ok((v, d)) => r is Ok && r->Ok_0.value == U::of_amount(v) && r->Ok_0.date@ == d,
        Err(e) => r is Err && r->Err_0 == e,
    }
}

impl<U: Unit> WithDate<U> {
    /// Reads a `<number>(<date>)` cell; the number is taken in the unit `U`.
    pub fn decode(s: &str) -> (r: Result<Self, WithDateError>)
        ensures
            with_date_result::<U>(s@, r),
    {
        let n = s.unicode_len();
        let open = find_char(s, '(');
        let value = match parse_decimal(s.substring_char(0, open)) {
            Some(v) => v,
            None => return Err(WithDateError::EmptyValue),
        };
        if open == n {
            return Err(WithDateError::MissingDate);
        }
        let rest = s.substring_char(open + 1, n);
        assert(rest@ == s@.skip(open + 1));
        let close = find_char(rest, ')');
        if close == rest.unicode_len() {
            return Err(WithDateError::MissingClosingParen);
        }
        if close + 1 < rest.unicode_len() {
            return Err(WithDateError::TrailingContent);
        }
        let date = rest.substring_char(0, close).to_owned();
        Ok(WithDate { value: U::from_amount(value), date })
    }
}

impl<U: Unit> Reading for WithDate<U> {
    open spec fn reads_as(s: Seq<char>, r: Option<Self>) -> bool {
        match with_date_of(s) {
            Ok((v, d)) => r is Some && r->Some_0.value == U::of_amount(v) && r->Some_0.date@ == d,
            Err(_) => r is None,
        }
    }

    fn read(s: &str) -> (r: Option<Self>) {
        match Self::decode(s) {
            Ok(w) => Some(w),
            Err(_) => None,
        }
    }
}

} // verus!
