//! The unit registry: the two unit families, their tokens and their labels.

use crate::error::ErrorKind;
use crate::text::{numbered, numbered_lines, texts};
use vstd::prelude::*;
use vstd::string::StringExecFns;

verus! {

/// The family a unit belongs to. Values convert only within one family.
#[derive(Clone, Copy, Debug, PartialEq, Eq, Structural)]
pub enum Family {
    Temperature,
    Length,
}

/// A temperature unit.
#[derive(Clone, Copy, Debug, PartialEq, Eq, Structural)]
pub enum TUnit {
    Celsius,
    Fahrenheit,
    Kelvin,
}

/// A length unit.
#[derive(Clone, Copy, Debug, PartialEq, Eq, Structural)]
pub enum LUnit {
    Centimeter,
    Inches,
    Kilometer,
    Miles,
}

/// A unit of either family.
#[derive(Clone, Copy, Debug, PartialEq, Eq, Structural)]
pub enum Unit {
    Temperature(TUnit),
    Length(LUnit),
}

/// Whether two pieces of text hold the same characters.
fn same_text(left: &str, right: &str) -> (same: bool)
    ensures
        same == (left@ == right@),
{
    let left_owned: String = left.to_owned();
    let right_owned: String = right.to_owned();
    left_owned == right_owned
}

impl TUnit {
    /// The token by which this unit is named in a request.
    pub open spec fn token(self) -> Seq<char> {
        match self {
            TUnit::Celsius => "celsius"@,
            TUnit::Fahrenheit => "fahrenheit"@,
            TUnit::Kelvin => "kelvin"@,
        }
    }

    /// The short label under which this unit appears in a record.
    pub open spec fn label(self) -> Seq<char> {
        match self {
            TUnit::Celsius => "°C"@,
            TUnit::Fahrenheit => "°F"@,
            TUnit::Kelvin => "K"@,
        }
    }

    /// The temperature unit that a token names, if it names one. The match
    /// is exact and case-sensitive.
    pub open spec fn parse(token: Seq<char>) -> Option<TUnit> {
        if token == "celsius"@ {
            Some(TUnit::Celsius)
        } else if token == "fahrenheit"@ {
            Some(TUnit::Fahrenheit)
        } else if token == "kelvin"@ {
            Some(TUnit::Kelvin)
        } else {
            None
        }
    }

    /// The entry of this unit in the list of supported units: the family
    /// marker, a space and the token.
    pub open spec fn listing(self) -> Seq<char> {
        "[suhu] "@ + self.token()
    }

    /// The token of this unit.
    pub fn name(&self) -> (token: &'static str)
        ensures
            token@ == self.token(),
    {
        match self {
            TUnit::Celsius => "celsius",
            TUnit::Fahrenheit => "fahrenheit",
            TUnit::Kelvin => "kelvin",
        }
    }

    /// The label of this unit.
    pub fn as_unit(&self) -> (label: String)
        ensures
            label@ == self.label(),
    {
        match self {
            TUnit::Celsius => String::from_str("°C"),
            TUnit::Fahrenheit => String::from_str("°F"),
            TUnit::Kelvin => String::from_str("K"),
        }
    }

    /// The entry of this unit in the list of supported units.
    pub fn to_string(&self) -> (entry: String)
        ensures
            entry@ == self.listing(),
    {
        String::from_str("[suhu] ").concat(self.name())
    }

    /// Reads a temperature unit from its token. Any other text is refused
    /// as an unsupported unit, and the error carries that text.
    pub fn from_str(unit: &str) -> (parsed: Result<TUnit, ErrorKind>)
        ensures
            match TUnit::parse(unit@) {
                Some(u) => parsed == Ok::<TUnit, ErrorKind>(u),
                None => parsed matches Err(ErrorKind::UnsupportedUnit(text)) && text@ == unit@,
            },
    {
        if same_text(unit, "celsius") {
            Ok(TUnit::Celsius)
        } else if same_text(unit, "fahrenheit") {
            Ok(TUnit::Fahrenheit)
        } else if same_text(unit, "kelvin") {
            Ok(TUnit::Kelvin)
        } else {
            Err(ErrorKind::UnsupportedUnit(unit.to_owned()))
        }
    }
}

impl LUnit {
    /// The token by which this unit is named in a request.
    pub open spec fn token(self) -> Seq<char> {
        match self {
            LUnit::Centimeter => "cm"@,
            LUnit::Inches => "inch"@,
            LUnit::Kilometer => "km"@,
            LUnit::Miles => "miles"@,
        }
    }

    /// The short label under which this unit appears in a record. For a
    /// length unit it is the token itself.
    pub open spec fn label(self) -> Seq<char> {
        self.token()
    }

    /// The length unit that a token names, if it names one. The match is
    /// exact and case-sensitive.
    pub open spec fn parse(token: Seq<char>) -> Option<LUnit> {
        if token == "cm"@ {
            Some(LUnit::Centimeter)
        } else if token == "inch"@ {
            Some(LUnit::Inches)
        } else if token == "km"@ {
            Some(LUnit::Kilometer)
        } else if token == "miles"@ {
            Some(LUnit::Miles)
        } else {
            None
        }
    }

    /// The entry of this unit in the list of supported units: the family
    /// marker, a space and the token.
    pub open spec fn listing(self) -> Seq<char> {
        "[panjang] "@ + self.token()
    }

    /// The token of this unit.
    pub fn name(&self) -> (token: &'static str)
        ensures
            token@ == self.token(),
    {
        match self {
            LUnit::Centimeter => "cm",
            LUnit::Inches => "inch",
            LUnit::Kilometer => "km",
            LUnit::Miles => "miles",
        }
    }

    /// The label of this unit.
    pub fn as_unit(&self) -> (label: String)
        ensures
            label@ == self.label(),
    {
        String::from_str(self.name())
    }

    /// The entry of this unit in the list of supported units.
    pub fn to_string(&self) -> (entry: String)
        ensures
            entry@ == self.listing(),
    {
        String::from_str("[panjang] ").concat(self.name())
    }

    /// Reads a length unit from its token. Any other text is refused as an
    /// unsupported unit, and the error carries that text.
    pub fn from_str(unit: &str) -> (parsed: Result<LUnit, ErrorKind>)
        ensures
            match LUnit::parse(unit@) {
                Some(u) => parsed == Ok::<LUnit, ErrorKind>(u),
                None => parsed matches Err(ErrorKind::UnsupportedUnit(text)) && text@ == unit@,
            },
    {
        if same_text(unit, "cm") {
            Ok(LUnit::Centimeter)
        } else if same_text(unit, "inch") {
            Ok(LUnit::Inches)
        } else if same_text(unit, "km") {
            Ok(LUnit::Kilometer)
        } else if same_text(unit, "miles") {
            Ok(LUnit::Miles)
        } else {
            Err(ErrorKind::UnsupportedUnit(unit.to_owned()))
        }
    }
}

impl Unit {
    /// The family of this unit.
    pub open spec fn spec_family(&self) -> Family {
        match *self {
            Unit::Temperature(_) => Family::Temperature,
            Unit::Length(_) => Family::Length,
        }
    }

    /// The token by which this unit is named in a request.
    pub open spec fn token(self) -> Seq<char> {
        match self {
            Unit::Temperature(t) => t.token(),
            Unit::Length(l) => l.token(),
        }
    }

    /// The short label under which this unit appears in a record.
    pub open spec fn label(self) -> Seq<char> {
        match self {
            Unit::Temperature(t) => t.label(),
            Unit::Length(l) => l.label(),
        }
    }

    /// The entry of this unit in the list of supported units.
    pub open spec fn listing(self) -> Seq<char> {
        match self {
            Unit::Temperature(t) => t.listing(),
            Unit::Length(l) => l.listing(),
        }
    }

    /// The unit that a token names, if it names one: the temperature units
    /// are tried first, then the length units.
    pub open spec fn parse(token: Seq<char>) -> Option<Unit> {
        match TUnit::parse(token) {
            Some(t) => Some(Unit::Temperature(t)),
            None => match LUnit::parse(token) {
                Some(l) => Some(Unit::Length(l)),
                None => None,
            },
        }
    }

    /// The supported units, in the order in which they are listed.
    pub open spec fn all() -> Seq<Unit> {
        seq![
            Unit::Temperature(TUnit::Celsius),
            Unit::Temperature(TUnit::Fahrenheit),
            Unit::Temperature(TUnit::Kelvin),
            Unit::Length(LUnit::Centimeter),
            Unit::Length(LUnit::Inches),
            Unit::Length(LUnit::Kilometer),
            Unit::Length(LUnit::Miles),
        ]
    }

    /// The family of this unit.
    #[verifier::when_used_as_spec(spec_family)]
    pub fn family(&self) -> (family: Family)
        ensures
            family == self.spec_family(),
    {
        match self {
            Unit::Temperature(_) => Family::Temperature,
            Unit::Length(_) => Family::Length,
        }
    }

    /// The token of this unit.
    pub fn name(&self) -> (token: &'static str)
        ensures
            token@ == self.token(),
    {
        match self {
            Unit::Temperature(t) => t.name(),
            Unit::Length(l) => l.name(),
        }
    }

    /// The label of this unit.
    pub fn as_unit(&self) -> (label: String)
        ensures
            label@ == self.label(),
    {
        match self {
            Unit::Temperature(t) => t.as_unit(),
            Unit::Length(l) => l.as_unit(),
        }
    }

    /// The entry of this unit in the list of supported units.
    pub fn to_string(&self) -> (entry: String)
        ensures
            entry@ == self.listing(),
    {
        match self {
            Unit::Temperature(t) => t.to_string(),
            Unit::Length(l) => l.to_string(),
        }
    }

    /// The supported units, in the order in which they are listed.
    pub fn supported() -> (units: Vec<Unit>)
        ensures
            units@ == Unit::all(),
    {
        vec![
            Unit::Temperature(TUnit::Celsius),
            Unit::Temperature(TUnit::Fahrenheit),
            Unit::Temperature(TUnit::Kelvin),
            Unit::Length(LUnit::Centimeter),
            Unit::Length(LUnit::Inches),
            Unit::Length(LUnit::Kilometer),
            Unit::Length(LUnit::Miles),
        ]
    }
}

/// Reads a unit from its token, trying the temperature units and then the
/// length units. A token that names no unit of either family is refused as
/// an unsupported unit, and the error carries the token.
pub fn parse_unit(unit_str: &String) -> (parsed: Result<Unit, ErrorKind>)
    ensures
        match Unit::parse(unit_str@) {
            Some(u) => parsed == Ok::<Unit, ErrorKind>(u),
            None => parsed matches Err(ErrorKind::UnsupportedUnit(text)) && text@ == unit_str@,
        },
{
    if let Ok(tunit) = TUnit::from_str(unit_str.as_str()) {
        return Ok(Unit::Temperature(tunit));
    }
    if let Ok(lunit) = LUnit::from_str(unit_str.as_str()) {
        return Ok(Unit::Length(lunit));
    }
    Err(ErrorKind::UnsupportedUnit(unit_str.clone()))
}

/// The heading of the list of supported units.
pub open spec fn unit_list_heading() -> Seq<char> {
    "Satuan yang didukung:"@
}

/// The entries of the supported units, in the order in which they are
/// listed: the temperature units, then the length units.
pub open spec fn unit_listings() -> Seq<Seq<char>> {
    Seq::new(Unit::all().len(), |i: int| Unit::all()[i].listing())
}

/// The lines that list the supported units: the heading, then the entries
/// as a numbered list.
pub open spec fn unit_list_lines() -> Seq<Seq<char>> {
    seq![unit_list_heading()] + numbered_lines(unit_listings())
}

/// The lines that list the supported units.
pub fn list_unit() -> (lines: Vec<String>)
    ensures
        texts(lines@) == unit_list_lines(),
{
    let units = Unit::supported();
    let mut entries: Vec<String> = Vec::new();
    let mut index: usize = 0;
    while index < units.len()
        invariant
            units@ == Unit::all(),
            index <= units.len(),
            entries.len() == index,
            forall|i: int| 0 <= i < index ==> (#[trigger] entries[i])@ == Unit::all()[i].listing(),
        decreases units.len() - index,
    {
        entries.push(units[index].to_string());
        index = index + 1;
    }
    assert(texts(entries@) =~= unit_listings());
    let mut lines: Vec<String> = Vec::new();
    lines.push(String::from_str("Satuan yang didukung:"));
    let mut list = numbered(&entries);
    let ghost heading = lines@;
    let ghost listed = list@;
    lines.append(&mut list);
    assert(lines@ == heading + listed);
    assert(texts(lines@) =~= unit_list_lines());
    lines
}

/// Every unit is read back from its own token: the seven tokens are
/// pairwise distinct, and each names the unit it belongs to.
pub proof fn lemma_token_names_its_unit(unit: Unit)
    ensures
        Unit::parse(unit.token()) == Some(unit),
{
    reveal_strlit("celsius");
    reveal_strlit("fahrenheit");
    reveal_strlit("kelvin");
    reveal_strlit("cm");
    reveal_strlit("inch");
    reveal_strlit("km");
    reveal_strlit("miles");
    assert("celsius"@.len() == 7 && "fahrenheit"@.len() == 10 && "kelvin"@.len() == 6);
    assert("cm"@.len() == 2 && "inch"@.len() == 4 && "km"@.len() == 2 && "miles"@.len() == 5);
    assert("cm"@[0] == 'c' && "km"@[0] == 'k');
}

/// A token names a unit only if it is that unit's token, so two different
/// units are never read from one token.
pub proof fn lemma_parsed_unit_has_token(token: Seq<char>, unit: Unit)
    requires
        Unit::parse(token) == Some(unit),
    ensures
        unit.token() == token,
{
}

} // verus!
