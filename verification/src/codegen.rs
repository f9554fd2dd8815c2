//! The struct code generator's decision logic.
//!
//! Given the shape of a configuration aggregate — a flat set of named, typed
//! fields — the generator plans one resolution per field: the field's name,
//! uppercased, becomes the environment variable's name, and the fields are
//! resolved in declaration order with the first failure short-circuiting the
//! rest. The shape checks and the planning are decided here; turning a plan
//! into source tokens is left to the surrounding tooling.

use vstd::prelude::*;
use vstd::string::StrSliceExecFns;
use vstd::string::StringExecFns;

use crate::env::{Env, EnvEntry};
use crate::text::{push_char, FromText};
use crate::{resolved_of, EnvVarDef, LoadError, LoadErrorModel};

verus! {

/// `c` with a lowercase ASCII letter replaced by its uppercase counterpart;
/// any other character is unchanged.
pub open spec fn upper_char(c: char) -> char {
    match c {
        'a' => 'A',
        'b' => 'B',
        'c' => 'C',
        'd' => 'D',
        'e' => 'E',
        'f' => 'F',
        'g' => 'G',
        'h' => 'H',
        'i' => 'I',
        'j' => 'J',
        'k' => 'K',
        'l' => 'L',
        'm' => 'M',
        'n' => 'N',
        'o' => 'O',
        'p' => 'P',
        'q' => 'Q',
        'r' => 'R',
        's' => 'S',
        't' => 'T',
        'u' => 'U',
        'v' => 'V',
        'w' => 'W',
        'x' => 'X',
        'y' => 'Y',
        'z' => 'Z',
        _ => c,
    }
}

/// `s` with each lowercase ASCII letter uppercased.
pub open spec fn upper_text(s: Seq<char>) -> Seq<char> {
    s.map_values(|c: char| upper_char(c))
}

/// `c` uppercased as `upper_char` says.
fn upper_char_exec(c: char) -> (r: char)
    ensures
        r == upper_char(c),
{
    match c {
        'a' => 'A',
        'b' => 'B',
        'c' => 'C',
        'd' => 'D',
        'e' => 'E',
        'f' => 'F',
        'g' => 'G',
        'h' => 'H',
        'i' => 'I',
        'j' => 'J',
        'k' => 'K',
        'l' => 'L',
        'm' => 'M',
        'n' => 'N',
        'o' => 'O',
        'p' => 'P',
        'q' => 'Q',
        'r' => 'R',
        's' => 'S',
        't' => 'T',
        'u' => 'U',
        'v' => 'V',
        'w' => 'W',
        'x' => 'X',
        'y' => 'Y',
        'z' => 'Z',
        _ => c,
    }
}

/// The environment variable name the generator derives for the field named
/// `field`: the name with each lowercase ASCII letter uppercased.
pub fn to_env_name(field: &str) -> (r: String)
    ensures
        r@ == upper_text(field@),
{
    let n = field.unicode_len();
    let mut s = String::new();
    proof {
        assert(upper_text(field@.take(0)) =~= s@);
    }
    let mut i: usize = 0;
    while i < n
        invariant
            i <= n,
            n == field@.len(),
            s@ == upper_text(field@.take(i as int)),
        decreases n - i,
    {
        let c = field.get_char(i);
        let u = upper_char_exec(c);
        push_char(&mut s, u);
        proof {
            assert(upper_text(field@.take(i + 1)) =~= upper_text(field@.take(i as int)).push(
                upper_char(field@[i as int]),
            ));
        }
        i += 1;
    }
    proof {
        assert(field@.take(n as int) =~= field@);
    }
    s
}

/// One field of a configuration aggregate, as the generator sees it: its
/// name, when it has one, and the text of its declared type.
#[derive(Debug, Clone, PartialEq, Eq)]
pub struct FieldDesc {
    /// The field's name; `None` for a tuple struct's positional field.
    pub name: Option<String>,
    /// The text of the field's declared type.
    pub ty: String,
}

/// The shape of the item the generator was handed.
#[derive(Debug, Clone, PartialEq, Eq)]
pub enum AggregateShape {
    /// A struct with the given fields, in declaration order. A unit struct
    /// is a struct with no fields.
    Struct(Vec<FieldDesc>),
    /// An enum.
    Enum,
    /// A union.
    Union,
}

/// Why the generator rejected an input shape.
#[derive(Debug, Clone, Copy, PartialEq, Eq, Structural)]
pub enum GenError {
    /// The item is not a struct.
    NotAStruct,
    /// The struct has a positional (unnamed) field.
    UnnamedField,
}

impl GenError {
    /// The text of the build-time failure shown for this rejection.
    pub open spec fn text(self) -> Seq<char> {
        match self {
            GenError::NotAStruct => "It must be a struct only"@,
            GenError::UnnamedField => "It must be a named struct, unit or tuple structs are not allowed"@,
        }
    }

    /// The human-readable account of the rejection.
    pub fn message(&self) -> (r: String)
        ensures
            r@ == self.text(),
    {
        match self {
            GenError::NotAStruct => String::from_str("It must be a struct only"),
            GenError::UnnamedField => String::from_str(
                "It must be a named struct, unit or tuple structs are not allowed",
            ),
        }
    }
}

/// One planned resolution of the generated constructor: the field, the text
/// of its type, and the environment variable it is loaded from.
#[derive(Debug, Clone, PartialEq, Eq)]
pub struct FieldPlan {
    /// The field's name.
    pub field: String,
    /// The text of the field's declared type.
    pub ty: String,
    /// The variable the field is loaded from: the field's name, uppercased.
    pub env_name: String,
}

/// Everything planning promises of its result `r` for the fields `fields`:
/// a plan exists exactly when every field is named, it covers the fields in
/// declaration order, and each planned variable name is the field's name
/// uppercased.
pub open spec fn plan_post(fields: Seq<FieldDesc>, r: Result<Vec<FieldPlan>, GenError>) -> bool {
    match r {
        Ok(plan) => {
            &&& forall|i: int| 0 <= i < fields.len() ==> (#[trigger] fields[i]).name is Some
            &&& plan@.len() == fields.len()
            &&& forall|i: int|
                0 <= i < fields.len() ==> {
                    &&& (#[trigger] plan@[i]).field@ == fields[i].name->0@
                    &&& plan@[i].ty@ == fields[i].ty@
                    &&& plan@[i].env_name@ == upper_text(fields[i].name->0@)
                }
        },
        Err(e) => e == GenError::UnnamedField && exists|i: int|
            0 <= i < fields.len() && (#[trigger] fields[i]).name is None,
    }
}

/// Plans the generated constructor for a struct with the given fields: one
/// resolution per field, in declaration order, each from the field's name
/// uppercased. A positional field rejects the whole struct.
pub fn process_struct(fields: &Vec<FieldDesc>) -> (r: Result<Vec<FieldPlan>, GenError>)
    ensures
        plan_post(fields@, r),
{
    let mut plan: Vec<FieldPlan> = Vec::new();
    let n = fields.len();
    let mut i: usize = 0;
    while i < n
        invariant
            i <= n,
            n == fields@.len(),
            plan@.len() == i,
            forall|j: int| 0 <= j < i ==> (#[trigger] fields@[j]).name is Some,
            forall|j: int|
                0 <= j < i ==> {
                    &&& (#[trigger] plan@[j]).field@ == fields@[j].name->0@
                    &&& plan@[j].ty@ == fields@[j].ty@
                    &&& plan@[j].env_name@ == upper_text(fields@[j].name->0@)
                },
        decreases n - i,
    {
        match &fields[i].name {
            Some(name) => {
                let env_name = to_env_name(name.as_str());
                plan.push(FieldPlan { field: name.clone(), ty: fields[i].ty.clone(), env_name });
            },
            None => {
                return Err(GenError::UnnamedField);
            },
        }
        i += 1;
    }
    Ok(plan)
}

/// Plans the generated constructor for the item of the given shape: a
/// struct is planned field by field, anything else is rejected outright.
pub fn generate(input: &AggregateShape) -> (r: Result<Vec<FieldPlan>, GenError>)
    ensures
        match *input {
            AggregateShape::Struct(fields) => plan_post(fields@, r),
            _ => r == Err::<Vec<FieldPlan>, GenError>(GenError::NotAStruct),
        },
{
    match input {
        AggregateShape::Struct(fields) => process_struct(fields),
        _ => Err(GenError::NotAStruct),
    }
}

/// What the generated constructor's resolutions yield for the planned
/// fields, in declaration order: the views of all resolved values, or the
/// first failure, which short-circuits the rest. Each field resolves with no
/// default and no validator.
pub open spec fn fields_resolved<T: FromText>(plan: Seq<FieldPlan>, env: Seq<EnvEntry>) -> Result<
    Seq<T::V>,
    LoadErrorModel,
>
    decreases plan.len(),
{
    if plan.len() == 0 {
        Ok(Seq::<T::V>::empty())
    } else {
        match resolved_of::<T>(plan[0].env_name@, None, env) {
            Ok(v) => match fields_resolved::<T>(plan.drop_first(), env) {
                Ok(rest) => Ok(seq![v] + rest),
                Err(e) => Err(e),
            },
            Err(e) => Err(e),
        }
    }
}

/// Resolves the planned fields against `env` exactly as the generated
/// constructor does: in declaration order, each from its planned variable
/// with no default and no validator, stopping at the first failure.
pub fn load_fields<T: FromText>(plan: &Vec<FieldPlan>, env: &Env) -> (r: Result<Vec<T>, LoadError>)
    requires
        forall|i: int| 0 <= i < plan@.len() ==> (#[trigger] plan@[i]).env_name@.len() > 0,
    ensures
        match r {
            Ok(vals) => fields_resolved::<T>(plan@, env@) == Ok::<Seq<T::V>, LoadErrorModel>(
                vals.deep_view(),
            ),
            Err(e) => fields_resolved::<T>(plan@, env@) matches Err(m) && e@ == m,
        },
{
    let mut vals: Vec<T> = Vec::new();
    let n = plan.len();
    proof {
        assert(plan@.skip(0) =~= plan@);
        assert(vals.deep_view() =~= Seq::<T::V>::empty());
    }
    let mut i: usize = 0;
    while i < n
        invariant
            i <= n,
            n == plan@.len(),
            forall|k: int| 0 <= k < plan@.len() ==> (#[trigger] plan@[k]).env_name@.len() > 0,
            vals@.len() == i,
            fields_resolved::<T>(plan@, env@) == (match fields_resolved::<T>(
                plan@.skip(i as int),
                env@,
            ) {
                Ok(rest) => Ok::<Seq<T::V>, LoadErrorModel>(vals.deep_view() + rest),
                Err(e) => Err::<Seq<T::V>, LoadErrorModel>(e),
            }),
        decreases n - i,
    {
        proof {
            assert(plan@.skip(i as int).drop_first() =~= plan@.skip(i + 1));
            assert(plan@.skip(i as int)[0] == plan@[i as int]);
        }
        let d: EnvVarDef<T, ()> = EnvVarDef::new(plan[i].env_name.as_str());
        let ghost prior = vals.deep_view();
        match d.load(env) {
            Ok(v) => {
                let ghost vv = v.deep_view();
                vals.push(v);
                proof {
                    assert(vals.deep_view() =~= prior.push(vv));
                    if fields_resolved::<T>(plan@.skip(i + 1), env@) is Ok {
                        let rest = fields_resolved::<T>(plan@.skip(i + 1), env@)->Ok_0;
                        assert(prior + (seq![vv] + rest) =~= prior.push(vv) + rest);
                    }
                }
            },
            Err(e) => {
                return Err(e);
            },
        }
        i += 1;
    }
    proof {
        assert(plan@.skip(n as int) =~= Seq::<FieldPlan>::empty());
    }
    Ok(vals)
}

} // verus!
