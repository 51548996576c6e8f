//! Categories and units, and the parsing of their names.
//!
//! A category is a dimension of measurement; each category owns exactly
//! three unit names, and a unit name belongs to exactly one category.
//! Parsing is case-sensitive exact matching.

use vstd::prelude::*;
use vstd::string::StrSliceExecFns;

verus! {

/// A dimension of measurement.  Closed set: these four and no others.
#[derive(Clone, Copy, PartialEq, Eq, Structural, Debug)]
pub enum Category {
    Time,
    Length,
    Mass,
    Temperature,
}

/// A named scale within a category.  Each variant belongs to exactly one
/// category, given by [`unit_category`].
#[derive(Clone, Copy, PartialEq, Eq, Structural, Debug)]
pub enum Unit {
    Second,
    Minute,
    Hour,
    Centimeter,
    Meter,
    Kilometer,
    Gram,
    Kilogram,
    Ton,
    Celsius,
    Fahrenheit,
    Kelvin,
}

/// The category that a unit belongs to.
pub open spec fn unit_category(u: Unit) -> Category {
    match u {
        Unit::Second => Category::Time,
        Unit::Minute => Category::Time,
        Unit::Hour => Category::Time,
        Unit::Centimeter => Category::Length,
        Unit::Meter => Category::Length,
        Unit::Kilometer => Category::Length,
        Unit::Gram => Category::Mass,
        Unit::Kilogram => Category::Mass,
        Unit::Ton => Category::Mass,
        Unit::Celsius => Category::Temperature,
        Unit::Fahrenheit => Category::Temperature,
        Unit::Kelvin => Category::Temperature,
    }
}

/// The name under which a category is requested.
pub open spec fn category_name(c: Category) -> Seq<char> {
    match c {
        Category::Time => "time"@,
        Category::Length => "length"@,
        Category::Mass => "mass"@,
        Category::Temperature => "temperature"@,
    }
}

/// The name under which a unit is requested.
pub open spec fn unit_name(u: Unit) -> Seq<char> {
    match u {
        Unit::Second => "second"@,
        Unit::Minute => "minute"@,
        Unit::Hour => "hour"@,
        Unit::Centimeter => "centimeter"@,
        Unit::Meter => "meter"@,
        Unit::Kilometer => "kilometer"@,
        Unit::Gram => "gram"@,
        Unit::Kilogram => "kilogram"@,
        Unit::Ton => "ton"@,
        Unit::Celsius => "celsius"@,
        Unit::Fahrenheit => "fahrenheit"@,
        Unit::Kelvin => "kelvin"@,
    }
}

/// What category, if any, a request string names.
pub open spec fn spec_parse_category(s: Seq<char>) -> Option<Category> {
    if s == category_name(Category::Time) {
        Some(Category::Time)
    } else if s == category_name(Category::Length) {
        Some(Category::Length)
    } else if s == category_name(Category::Mass) {
        Some(Category::Mass)
    } else if s == category_name(Category::Temperature) {
        Some(Category::Temperature)
    } else {
        None
    }
}

/// What unit of category `c`, if any, a request string names.  A name of a
/// unit of another category is not recognised here: unit names are scoped
/// to their category.
pub open spec fn spec_parse_unit(c: Category, s: Seq<char>) -> Option<Unit> {
    match c {
        Category::Time => {
            if s == unit_name(Unit::Second) {
                Some(Unit::Second)
            } else if s == unit_name(Unit::Minute) {
                Some(Unit::Minute)
            } else if s == unit_name(Unit::Hour) {
                Some(Unit::Hour)
            } else {
                None
            }
        },
        Category::Length => {
            if s == unit_name(Unit::Centimeter) {
                Some(Unit::Centimeter)
            } else if s == unit_name(Unit::Meter) {
                Some(Unit::Meter)
            } else if s == unit_name(Unit::Kilometer) {
                Some(Unit::Kilometer)
            } else {
                None
            }
        },
        Category::Mass => {
            if s == unit_name(Unit::Gram) {
                Some(Unit::Gram)
            } else if s == unit_name(Unit::Kilogram) {
                Some(Unit::Kilogram)
            } else if s == unit_name(Unit::Ton) {
                Some(Unit::Ton)
            } else {
                None
            }
        },
        Category::Temperature => {
            if s == unit_name(Unit::Celsius) {
                Some(Unit::Celsius)
            } else if s == unit_name(Unit::Fahrenheit) {
                Some(Unit::Fahrenheit)
            } else if s == unit_name(Unit::Kelvin) {
                Some(Unit::Kelvin)
            } else {
                None
            }
        },
    }
}

/// Character-by-character string comparison, proved equivalent to equality
/// of the two views.
fn str_eq(a: &str, b: &str) -> (r: bool)
    ensures
        r == (a@ == b@),
{
    let a_len = a.unicode_len();
    let b_len = b.unicode_len();
    if a_len != b_len {
        return false;
    }
    let mut i: usize = 0;
    while i < a_len
        invariant
            i <= a_len,
            a_len == a@.len(),
            b_len == b@.len(),
            a_len == b_len,
            forall|j: int| 0 <= j < i ==> a@[j] == b@[j],
        decreases a_len - i,
    {
        if a.get_char(i) != b.get_char(i) {
            return false;
        }
        i = i + 1;
    }
    proof {
        assert(a@ =~= b@);
    }
    true
}

/// Resolve a category name; `None` exactly when the string names no
/// category.
pub fn parse_category(s: &str) -> (r: Option<Category>)
    ensures
        r == spec_parse_category(s@),
{
    if str_eq(s, "time") {
        Some(Category::Time)
    } else if str_eq(s, "length") {
        Some(Category::Length)
    } else if str_eq(s, "mass") {
        Some(Category::Mass)
    } else if str_eq(s, "temperature") {
        Some(Category::Temperature)
    } else {
        None
    }
}

/// Resolve a unit name within category `c`; `None` exactly when the string
/// names no unit of `c`.
pub fn parse_unit(c: Category, s: &str) -> (r: Option<Unit>)
    ensures
        r == spec_parse_unit(c, s@),
{
    match c {
        Category::Time => {
            if str_eq(s, "second") {
                Some(Unit::Second)
            } else if str_eq(s, "minute") {
                Some(Unit::Minute)
            } else if str_eq(s, "hour") {
                Some(Unit::Hour)
            } else {
                None
            }
        },
        Category::Length => {
            if str_eq(s, "centimeter") {
                Some(Unit::Centimeter)
            } else if str_eq(s, "meter") {
                Some(Unit::Meter)
            } else if str_eq(s, "kilometer") {
                Some(Unit::Kilometer)
            } else {
                None
            }
        },
        Category::Mass => {
            if str_eq(s, "gram") {
                Some(Unit::Gram)
            } else if str_eq(s, "kilogram") {
                Some(Unit::Kilogram)
            } else if str_eq(s, "ton") {
                Some(Unit::Ton)
            } else {
                None
            }
        },
        Category::Temperature => {
            if str_eq(s, "celsius") {
                Some(Unit::Celsius)
            } else if str_eq(s, "fahrenheit") {
                Some(Unit::Fahrenheit)
            } else if str_eq(s, "kelvin") {
                Some(Unit::Kelvin)
            } else {
                None
            }
        },
    }
}

/// A parsed unit does belong to the category it was parsed in.
pub proof fn lemma_parse_unit_in_category(c: Category, s: Seq<char>)
    ensures
        spec_parse_unit(c, s) matches Some(u) ==> unit_category(u) == c,
{
}

/// A parsed category is the one whose name was given.
pub proof fn lemma_parse_category_name(s: Seq<char>)
    ensures
        spec_parse_category(s) matches Some(c) ==> category_name(c) == s,
{
}

/// Unit names are scoped to their category: the name of a unit of one
/// category never parses in another category.  A request that mixes
/// categories is therefore rejected as an unknown unit, never answered
/// with a number.
pub proof fn lemma_units_scoped(c: Category, u: Unit)
    requires
        unit_category(u) != c,
    ensures
        spec_parse_unit(c, unit_name(u)) is None,
{
    broadcast use vstd::string::group_string_axioms;

    reveal_strlit("second");
    reveal_strlit("minute");
    reveal_strlit("hour");
    reveal_strlit("centimeter");
    reveal_strlit("meter");
    reveal_strlit("kilometer");
    reveal_strlit("gram");
    reveal_strlit("kilogram");
    reveal_strlit("ton");
    reveal_strlit("celsius");
    reveal_strlit("fahrenheit");
    reveal_strlit("kelvin");
    // Names of equal length are told apart by their first character; the
    // rest differ in length already.
    assert("second"@.len() == 6);
    assert("minute"@.len() == 6);
    assert("hour"@.len() == 4);
    assert("centimeter"@.len() == 10);
    assert("meter"@.len() == 5);
    assert("kilometer"@.len() == 9);
    assert("gram"@.len() == 4);
    assert("kilogram"@.len() == 8);
    assert("ton"@.len() == 3);
    assert("celsius"@.len() == 7);
    assert("fahrenheit"@.len() == 10);
    assert("kelvin"@.len() == 6);
    assert("second"@[0] != "kelvin"@[0]);
    assert("minute"@[0] != "kelvin"@[0]);
    assert("hour"@[0] != "gram"@[0]);
    assert("centimeter"@[0] != "fahrenheit"@[0]);
}

} // verus!
