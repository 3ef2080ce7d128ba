//! The schema value model: an instance-type tag, an optional format hint and
//! optional numeric and string validation records.
use vstd::arithmetic::power2::pow2;
use vstd::prelude::*;

verus! {

/// The broad JSON value category that a schema accepts.
#[derive(Clone, Copy, Debug, PartialEq, Eq, Structural)]
pub enum InstanceType {
    Null,
    Boolean,
    Number,
    Integer,
    String,
}

/// An exact numeric bound: `(-1)^negative * mantissa * 2^exponent`.
///
/// Every bound of a primitive type, the widest integers and the largest
/// floats included, has such a form with no loss of precision.
#[derive(Clone, Copy, Debug, PartialEq, Eq, Structural)]
pub struct NumberBound {
    pub negative: bool,
    pub mantissa: u128,
    pub exponent: u32,
}

impl NumberBound {
    /// The number that the bound stands for.
    pub open spec fn value(self) -> int {
        let magnitude = self.mantissa as int * pow2(self.exponent as nat) as int;
        if self.negative {
            -magnitude
        } else {
            magnitude
        }
    }

    /// The bound equal to an unsigned integer.
    pub fn from_unsigned(v: u128) -> (r: NumberBound)
        ensures
            r.value() == v as int,
    {
        let r = NumberBound { negative: false, mantissa: v, exponent: 0 };
        proof {
            lemma_value_unscaled(r);
        }
        r
    }

    /// The bound equal to a signed integer.
    pub fn from_signed(v: i128) -> (r: NumberBound)
        ensures
            r.value() == v as int,
    {
        let r = if v < 0 {
            let magnitude: u128 = (-(v + 1)) as u128 + 1;
            NumberBound { negative: true, mantissa: magnitude, exponent: 0 }
        } else {
            NumberBound { negative: false, mantissa: v as u128, exponent: 0 }
        };
        proof {
            lemma_value_unscaled(r);
        }
        r
    }
}

/// A bound with exponent zero stands for its signed mantissa.
pub proof fn lemma_value_unscaled(b: NumberBound)
    requires
        b.exponent == 0,
    ensures
        b.value() == (if b.negative { -(b.mantissa as int) } else { b.mantissa as int }),
{
    vstd::arithmetic::power2::lemma2_to64();
    assert(pow2(b.exponent as nat) == 1);
}

/// Numeric validation: inclusive lower and upper bounds.
#[derive(Clone, Copy, Debug, PartialEq, Eq, Structural)]
pub struct NumberValidation {
    pub minimum: Option<NumberBound>,
    pub maximum: Option<NumberBound>,
}

/// String validation: bounds on the number of characters.
#[derive(Clone, Copy, Debug, PartialEq, Eq, Structural)]
pub struct StringValidation {
    pub min_length: Option<u32>,
    pub max_length: Option<u32>,
}

/// The value that an optional bound stands for.
pub open spec fn bound_value(b: Option<NumberBound>) -> Option<int> {
    match b {
        Some(v) => Some(v.value()),
        None => None,
    }
}

/// The length that an optional length bound stands for.
pub open spec fn length_value(l: Option<u32>) -> Option<nat> {
    match l {
        Some(v) => Some(v as nat),
        None => None,
    }
}

/// What a schema object says, with the validation records flattened: a
/// field is `None` where the record is absent or leaves it unset.
pub struct SchemaObjectModel {
    pub instance_type: Option<InstanceType>,
    pub format: Option<Seq<char>>,
    pub minimum: Option<int>,
    pub maximum: Option<int>,
    pub min_length: Option<nat>,
    pub max_length: Option<nat>,
}

/// The expanded form of a schema: any combination of the supported keywords.
#[derive(Clone, Debug)]
pub struct SchemaObject {
    pub instance_type: Option<InstanceType>,
    pub format: Option<String>,
    pub number: Option<NumberValidation>,
    pub string: Option<StringValidation>,
}

impl View for SchemaObject {
    type V = SchemaObjectModel;

    open spec fn view(&self) -> SchemaObjectModel {
        SchemaObjectModel {
            instance_type: self.instance_type,
            format: match self.format {
                Some(f) => Some(f@),
                None => None,
            },
            minimum: match self.number {
                Some(n) => bound_value(n.minimum),
                None => None,
            },
            maximum: match self.number {
                Some(n) => bound_value(n.maximum),
                None => None,
            },
            min_length: match self.string {
                Some(v) => length_value(v.min_length),
                None => None,
            },
            max_length: match self.string {
                Some(v) => length_value(v.max_length),
                None => None,
            },
        }
    }
}

impl SchemaObject {
    /// No validation record is kept with all of its fields unset.
    pub open spec fn well_formed(&self) -> bool {
        &&& (self.number matches Some(n) ==> n.minimum.is_some() || n.maximum.is_some())
        &&& (self.string matches Some(v) ==> v.min_length.is_some() || v.max_length.is_some())
    }

    /// The compact form: one instance type and nothing else.
    pub fn of_type(instance_type: InstanceType) -> (r: SchemaObject)
        ensures
            r.well_formed(),
            r@ == (SchemaObjectModel {
                instance_type: Some(instance_type),
                format: None,
                minimum: None,
                maximum: None,
                min_length: None,
                max_length: None,
            }),
    {
        SchemaObject { instance_type: Some(instance_type), format: None, number: None, string: None }
    }

    /// Sets the format hint.
    pub fn set_format(&mut self, format: String)
        requires
            old(self).well_formed(),
        ensures
            final(self).well_formed(),
            final(self)@ == (SchemaObjectModel { format: Some(format@), ..old(self)@ }),
    {
        self.format = Some(format);
    }

    /// Sets the inclusive lower bound, creating the numeric record if needed.
    pub fn set_minimum(&mut self, bound: NumberBound)
        requires
            old(self).well_formed(),
        ensures
            final(self).well_formed(),
            final(self)@ == (SchemaObjectModel { minimum: Some(bound.value()), ..old(self)@ }),
    {
        let maximum = match self.number {
            Some(n) => n.maximum,
            None => None,
        };
        self.number = Some(NumberValidation { minimum: Some(bound), maximum });
    }

    /// Sets the inclusive upper bound, creating the numeric record if needed.
    pub fn set_maximum(&mut self, bound: NumberBound)
        requires
            old(self).well_formed(),
        ensures
            final(self).well_formed(),
            final(self)@ == (SchemaObjectModel { maximum: Some(bound.value()), ..old(self)@ }),
    {
        let minimum = match self.number {
            Some(n) => n.minimum,
            None => None,
        };
        self.number = Some(NumberValidation { minimum, maximum: Some(bound) });
    }

    /// Sets the least number of characters, creating the string record if needed.
    pub fn set_min_length(&mut self, length: u32)
        requires
            old(self).well_formed(),
        ensures
            final(self).well_formed(),
            final(self)@ == (SchemaObjectModel { min_length: Some(length as nat), ..old(self)@ }),
    {
        let max_length = match self.string {
            Some(v) => v.max_length,
            None => None,
        };
        self.string = Some(StringValidation { min_length: Some(length), max_length });
    }

    /// Sets the greatest number of characters, creating the string record if needed.
    pub fn set_max_length(&mut self, length: u32)
        requires
            old(self).well_formed(),
        ensures
            final(self).well_formed(),
            final(self)@ == (SchemaObjectModel { max_length: Some(length as nat), ..old(self)@ }),
    {
        let min_length = match self.string {
            Some(v) => v.min_length,
            None => None,
        };
        self.string = Some(StringValidation { min_length, max_length: Some(length) });
    }

    /// Wraps the object as a schema.
    pub fn into_schema(self) -> (r: Schema)
        ensures
            r == Schema::Object(self),
    {
        Schema::Object(self)
    }
}

/// A schema: the trivial marker that accepts everything (`true`) or nothing
/// (`false`), or a schema object.
#[derive(Clone, Debug)]
pub enum Schema {
    Bool(bool),
    Object(SchemaObject),
}

/// What a schema says.
pub enum SchemaModel {
    Bool(bool),
    Object(SchemaObjectModel),
}

impl View for Schema {
    type V = SchemaModel;

    open spec fn view(&self) -> SchemaModel {
        match self {
            Schema::Bool(b) => SchemaModel::Bool(*b),
            Schema::Object(o) => SchemaModel::Object(o@),
        }
    }
}

impl Schema {
    /// The schema is an object with no empty validation record, or a marker.
    pub open spec fn well_formed(&self) -> bool {
        match self {
            Schema::Bool(_) => true,
            Schema::Object(o) => o.well_formed(),
        }
    }
}

} // verus!
