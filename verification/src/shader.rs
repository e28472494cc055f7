//! Shader bytecode acceptance: the one well-formedness check this core
//! performs before wrapping a blob in a shader module.

use vstd::prelude::*;
use crate::error::ShaderError;

verus! {

/// Whether a bytecode blob is acceptable: non-empty and a whole number of
/// 4-byte words.
pub open spec fn spec_bytecode_well_formed(code: Seq<u8>) -> bool {
    code.len() > 0 && code.len() % 4 == 0
}

/// Validates a shader bytecode blob, returning its size in bytes exactly
/// when the blob is non-empty and a whole number of 4-byte words.
pub fn validate_shader_bytecode(code: &Vec<u8>) -> (r: Result<usize, ShaderError>)
    ensures
        r is Ok <==> spec_bytecode_well_formed(code@),
        r matches Ok(size) ==> size == code@.len(),
        r matches Err(e) ==> e == ShaderError::MalformedBytecode,
{
    let n = code.len();
    if n == 0 || n % 4 != 0 {
        return Err(ShaderError::MalformedBytecode);
    }
    Ok(n)
}

} // verus!
