//! Values of the scripting engine as the host sees them, and the rule that
//! turns one into a uniform.

use vstd::prelude::*;
use crate::command::{RenderCommand, RenderCommandModel, TextureImage, UniformModel, UniformValue};
use crate::matrix::{row_major, Matrix};

verus! {

/// A value that a script handed to the host.
#[derive(Debug, PartialEq, Eq)]
pub enum ScriptValue {
    /// A number, as the bit pattern of a single-precision float.
    Number(u32),
    List(Vec<ScriptValue>),
    Matrix(Matrix<u32>),
    Texture(TextureImage),
    /// A closure of the engine.
    Closure,
    /// Any value of another shape.
    Other,
}

/// Why a script value is no uniform.
#[derive(Debug, Clone, Copy, PartialEq, Eq, Structural)]
pub enum CoercionError {
    /// A list that is not three numbers.
    ListShape,
    /// A value of a shape that no uniform has.
    Unsupported,
}

/// Whether the listed values are exactly three numbers.
pub open spec fn is_vector3(items: Seq<ScriptValue>) -> bool {
    &&& items.len() == 3
    &&& items[0] is Number
    &&& items[1] is Number
    &&& items[2] is Number
}

/// The uniform that a script value stands for: a number is a float, a list
/// of exactly three numbers a vector, a matrix and a texture themselves.
/// Nothing else is a uniform.
pub open spec fn coerced(value: ScriptValue) -> Result<UniformModel, CoercionError> {
    match value {
        ScriptValue::Number(bits) => Ok(UniformModel::Float(bits)),
        ScriptValue::List(items) => if is_vector3(items@) {
            Ok(
                UniformModel::Vector3(
                    items@[0]->Number_0,
                    items@[1]->Number_0,
                    items@[2]->Number_0,
                ),
            )
        } else {
            Err(CoercionError::ListShape)
        },
        ScriptValue::Matrix(matrix) => Ok(UniformModel::Matrix(row_major(matrix@))),
        ScriptValue::Texture(image) => Ok(UniformModel::RgbaTexture2D(image@)),
        ScriptValue::Closure => Err(CoercionError::Unsupported),
        ScriptValue::Other => Err(CoercionError::Unsupported),
    }
}

/// The command that `set-uniform!` sends for a name and a value, or the
/// reason why it sends none.
pub open spec fn uniform_command(name: Seq<char>, value: ScriptValue) -> Result<
    RenderCommandModel,
    CoercionError,
> {
    match coerced(value) {
        Ok(uniform) => Ok(RenderCommandModel::SetUniform(name, uniform)),
        Err(error) => Err(error),
    }
}

impl CoercionError {
    /// The text of the failure as the script sees it.
    pub fn message(&self) -> (text: String)
        ensures
            *self == CoercionError::ListShape ==> text@
                == "uniform only support coercing 3 element lists to vec3"@,
            *self == CoercionError::Unsupported ==> text@ == "thats a paddlin"@,
    {
        match self {
            CoercionError::ListShape => "uniform only support coercing 3 element lists to vec3"
                .to_owned(),
            CoercionError::Unsupported => "thats a paddlin".to_owned(),
        }
    }
}

/// The number that a script value holds, if it is one.
fn number_of(value: &ScriptValue) -> (bits: Option<u32>)
    ensures
        bits is Some <==> value is Number,
        bits is Some ==> bits->0 == value->Number_0,
{
    match value {
        ScriptValue::Number(bits) => Some(*bits),
        _ => None,
    }
}

/// Turns a script value into a uniform.
pub fn coerce(value: ScriptValue) -> (uniform: Result<UniformValue, CoercionError>)
    ensures
        match coerced(value) {
            Ok(model) => uniform is Ok && uniform->Ok_0@ == model,
            Err(error) => uniform == Err::<UniformValue, CoercionError>(error),
        },
{
    match value {
        ScriptValue::Number(bits) => Ok(UniformValue::Float(bits)),
        ScriptValue::List(items) => {
            if items.len() != 3 {
                return Err(CoercionError::ListShape);
            }
            match (number_of(&items[0]), number_of(&items[1]), number_of(&items[2])) {
                (Some(x), Some(y), Some(z)) => Ok(UniformValue::Vector3(x, y, z)),
                _ => Err(CoercionError::ListShape),
            }
        },
        ScriptValue::Matrix(matrix) => Ok(UniformValue::Matrix(matrix.to_row_major())),
        ScriptValue::Texture(image) => Ok(UniformValue::RgbaTexture2D(image)),
        ScriptValue::Closure => Err(CoercionError::Unsupported),
        ScriptValue::Other => Err(CoercionError::Unsupported),
    }
}

/// The binding `set-uniform!`: the one command to send for the name and the
/// value, or the failure to report, in which case nothing is sent.
pub fn set_uniform(name: String, value: ScriptValue) -> (command: Result<
    RenderCommand,
    CoercionError,
>)
    ensures
        match uniform_command(name@, value) {
            Ok(model) => command is Ok && command->Ok_0@ == model,
            Err(error) => command == Err::<RenderCommand, CoercionError>(error),
        },
{
    match coerce(value) {
        Ok(uniform) => Ok(RenderCommand::SetUniform(name, uniform)),
        Err(error) => Err(error),
    }
}

/// A list of another length than three, or with an entry that is no
/// number, is no uniform, and `set-uniform!` sends no command for it.
pub proof fn lemma_list_rejected(name: Seq<char>, items: Vec<ScriptValue>, at: int)
    requires
        items@.len() != 3 || (0 <= at < items@.len() && !(items@[at] is Number)),
    ensures
        coerced(ScriptValue::List(items)) == Err::<UniformModel, CoercionError>(
            CoercionError::ListShape,
        ),
        uniform_command(name, ScriptValue::List(items)) == Err::<
            RenderCommandModel,
            CoercionError,
        >(CoercionError::ListShape),
{
}

/// Three numbers are the vector of those numbers in their order, and
/// `set-uniform!` sends exactly that vector under the name.
pub proof fn lemma_vector_accepted(name: Seq<char>, items: Vec<ScriptValue>, x: u32, y: u32, z: u32)
    requires
        items@ == seq![ScriptValue::Number(x), ScriptValue::Number(y), ScriptValue::Number(z)],
    ensures
        uniform_command(name, ScriptValue::List(items)) == Ok::<RenderCommandModel, CoercionError>(
            RenderCommandModel::SetUniform(name, UniformModel::Vector3(x, y, z)),
        ),
{
}

} // verus!
