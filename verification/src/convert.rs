//! The converter's public entry: resolve a request, given as strings, to
//! a conversion plan or to a typed error naming the invalid input.

use vstd::prelude::*;
use crate::units::{
    Category, Unit, spec_parse_category, spec_parse_unit, parse_category, parse_unit,
    unit_category, lemma_parse_unit_in_category,
};
use crate::plan::{Affine, spec_plan, plan_for, lemma_plan_defined};

verus! {

/// Why a conversion request was rejected.  Every error carries the
/// offending request strings.
#[derive(Clone, PartialEq, Eq, Debug)]
pub enum ConversionError {
    /// The string names none of the known categories.
    UnknownCategory(String),
    /// The second string names no unit of the category named first.
    UnknownUnit(String, String),
    /// Category and units are valid but no formula is defined for the
    /// directed pair.  Identity pairs are defined here and unit names are
    /// scoped to their category, so [`plan_conversion`] never produces
    /// this variant; it completes the error taxonomy of the converter.
    UnsupportedConversion(String, String, String),
}

/// Resolve a conversion request to the plan of its directed unit pair.
///
/// The category string must name a known category, and both unit strings
/// must name units of that category; the first failure, checked in that
/// order, is reported in the error.  On success the returned plan is the
/// documented formula of the pair, the identity plan when `from == to`.
pub fn plan_conversion(category: &str, from: &str, to: &str) -> (r: Result<
    Affine,
    ConversionError,
>)
    ensures
        match spec_parse_category(category@) {
            None => r matches Err(ConversionError::UnknownCategory(s)) && s@ == category@,
            Some(c) => match (spec_parse_unit(c, from@), spec_parse_unit(c, to@)) {
                (None, _) => r matches Err(ConversionError::UnknownUnit(cs, us)) && cs@
                    == category@ && us@ == from@,
                (Some(_), None) => r matches Err(ConversionError::UnknownUnit(cs, us)) && cs@
                    == category@ && us@ == to@,
                (Some(f), Some(t)) => r matches Ok(p) && Some(p) == spec_plan(f, t),
            },
        },
        !(r matches Err(ConversionError::UnsupportedConversion(_, _, _))),
{
    let cat = match parse_category(category) {
        Some(c) => c,
        None => {
            return Err(ConversionError::UnknownCategory(category.to_owned()));
        },
    };
    let from_unit = match parse_unit(cat, from) {
        Some(u) => u,
        None => {
            return Err(ConversionError::UnknownUnit(category.to_owned(), from.to_owned()));
        },
    };
    let to_unit = match parse_unit(cat, to) {
        Some(u) => u,
        None => {
            return Err(ConversionError::UnknownUnit(category.to_owned(), to.to_owned()));
        },
    };
    proof {
        lemma_parse_unit_in_category(cat, from@);
        lemma_parse_unit_in_category(cat, to@);
        lemma_plan_defined(from_unit, to_unit);
    }
    match plan_for(from_unit, to_unit) {
        Some(p) => Ok(p),
        None => Err(
            ConversionError::UnsupportedConversion(
                category.to_owned(),
                from.to_owned(),
                to.to_owned(),
            ),
        ),
    }
}

} // verus!
