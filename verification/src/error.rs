//! Misuse errors reported by the binding layer.
//!
//! The layer distinguishes programmer-misuse conditions (wrong vertex stride,
//! overlapping scoped bindings, out-of-range slices, texture-unit exhaustion,
//! mismatched uniform types, oversized debug labels) from environment gaps and
//! driver diagnostics. Misuse is never silently recovered: the offending call
//! returns an [`OoglError`] carrying the offending values, and every public
//! operation states in its contract exactly when each variant is produced.

use vstd::prelude::*;

use crate::shader::GlslType;
use crate::shader::GlslTypeName;

verus! {

/// A programmer-misuse error, carrying the offending values.
#[derive(Debug, Clone, PartialEq, Eq)]
pub enum OoglError {
    /// A typed uniform handle was requested for a uniform whose declared
    /// shading-language type accepts none of the requested value type's
    /// shading-language types.
    UniformTypeMismatch { name: String, requested: Vec<GlslTypeName>, declared: GlslType },
    /// A typed attribute handle was requested for an attribute whose declared
    /// shading-language type accepts none of the requested value type's
    /// shading-language types.
    AttribTypeMismatch { name: String, requested: Vec<GlslTypeName>, declared: GlslType },
    /// An attribute pointer was requested with a component count that does
    /// not match the total number of scalar components the attribute's
    /// declared shading-language type requires.
    AttribPtrLenMismatch { location: u32, specified_len: u32, required_len: u64 },
    /// The stride computed from the vertex attribute pointers does not match
    /// the byte size of the declared vertex type.
    StrideMismatch { stride: u32, vertex_size: usize },
    /// A scoped binding was requested for a binding target whose previous
    /// scoped binding is still alive.
    OverlappingBinding { new_addr: u32, old_addr: u32 },
    /// The supplied data slice does not have exactly the length of the buffer
    /// range it is meant to overwrite.
    DataLengthMismatch { slice_len: usize, range_len: usize },
    /// A buffer sub-range does not lie inside the buffer's current length.
    RangeOutOfBounds { start: usize, end: usize, len: usize },
    /// A texture unit at or beyond the capability-reported maximum was
    /// requested.
    TextureUnitOutOfRange { unit: u16, max_units: u16 },
    /// The texture-unit free list is exhausted.
    NoFreeTextureUnits,
    /// A texture size with a zero dimension was requested.
    ZeroTextureSize { width: u32, height: u32 },
    /// A texture size beyond the capability-reported maximum was requested.
    TextureSizeTooLarge { width: u32, height: u32, max_size: u32 },
    /// The supplied texel slice does not have exactly `width * height *
    /// components` elements.
    TexelCountMismatch { slice_len: usize, expected_len: u128 },
    /// A debug label longer than the driver-reported maximum was supplied.
    LabelTooLong { len: usize, max_len: i32 },
    /// A debug label with an embedded terminator byte was supplied.
    LabelHasNulByte,
    /// The driver lacks an extension the layer unconditionally needs.
    RequiredExtensionMissing,
}


/// The character of one decimal digit.
pub open spec fn spec_digit_char(d: nat) -> char {
    if d == 0 {
        '0'
    } else if d == 1 {
        '1'
    } else if d == 2 {
        '2'
    } else if d == 3 {
        '3'
    } else if d == 4 {
        '4'
    } else if d == 5 {
        '5'
    } else if d == 6 {
        '6'
    } else if d == 7 {
        '7'
    } else if d == 8 {
        '8'
    } else if d == 9 {
        '9'
    } else {
        ' '
    }
}

/// The decimal digits of a value, most significant first.
pub open spec fn spec_decimal_digits(n: nat) -> Seq<char>
    decreases n,
{
    if n < 10 {
        seq![spec_digit_char(n)]
    } else {
        spec_decimal_digits(n / 10).push(spec_digit_char(n % 10))
    }
}

/// The decimal rendering of a possibly negative value.
pub open spec fn spec_decimal_i32(n: i32) -> Seq<char> {
    if n < 0 {
        seq!['-'] + spec_decimal_digits((0 - n) as nat)
    } else {
        spec_decimal_digits(n as nat)
    }
}

/// One decimal digit as text.
fn digit_str(d: u128) -> (s: &'static str)
    requires
        d < 10,
    ensures
        s@ == seq![spec_digit_char(d as nat)],
{
    if d == 0 {
        proof {
            reveal_strlit("0");
        }
        return "0";
    }
    if d == 1 {
        proof {
            reveal_strlit("1");
        }
        return "1";
    }
    if d == 2 {
        proof {
            reveal_strlit("2");
        }
        return "2";
    }
    if d == 3 {
        proof {
            reveal_strlit("3");
        }
        return "3";
    }
    if d == 4 {
        proof {
            reveal_strlit("4");
        }
        return "4";
    }
    if d == 5 {
        proof {
            reveal_strlit("5");
        }
        return "5";
    }
    if d == 6 {
        proof {
            reveal_strlit("6");
        }
        return "6";
    }
    if d == 7 {
        proof {
            reveal_strlit("7");
        }
        return "7";
    }
    if d == 8 {
        proof {
            reveal_strlit("8");
        }
        return "8";
    }
    proof {
        reveal_strlit("9");
    }
    "9"
}

/// Renders a value in decimal.
pub fn decimal_string(n: u128) -> (s: String)
    ensures
        s@ == spec_decimal_digits(n as nat),
    decreases n,
{
    if n < 10 {
        String::from_str(digit_str(n))
    } else {
        let mut s = decimal_string(n / 10);
        s.append(digit_str(n % 10));
        s
    }
}

/// Renders a possibly negative value in decimal.
pub fn decimal_string_i32(n: i32) -> (s: String)
    ensures
        s@ == spec_decimal_i32(n),
{
    if n < 0 {
        proof {
            reveal_strlit("-");
        }
        let mut s = String::from_str("-");
        let magnitude: u128 = if n == i32::MIN {
            0x80000000u128
        } else {
            (-n) as u128
        };
        s.append(decimal_string(magnitude).as_str());
        s
    } else {
        decimal_string(n as u128)
    }
}


impl OoglError {
    /// The diagnostic text of the error, naming the offending values.
    pub open spec fn spec_message(self) -> Seq<char> {
        match self {
        OoglError::UniformTypeMismatch { name, requested, declared } => "mismatched uniform types: values assignable to `"@
            + crate::shader::spec_type_list_string(requested@)
            + "` cannot be stored into the uniform `"@
            + name@
            + "` with the GLSL type `"@
            + crate::shader::spec_glsl_type_string(declared)
            + "`"@,
        OoglError::AttribTypeMismatch { name, requested, declared } => "mismatched attribute types: values assignable to `"@
            + crate::shader::spec_type_list_string(requested@)
            + "` cannot be stored into the attribute `"@
            + name@
            + "` with the GLSL type `"@
            + crate::shader::spec_glsl_type_string(declared)
            + "`"@,
        OoglError::AttribPtrLenMismatch { location, specified_len, required_len } => "specified length ("@
            + spec_decimal_digits(specified_len as nat)
            + ") for the attribute (location = "@
            + spec_decimal_digits(location as nat)
            + ") pointer type doesn't match the number of components required by its GLSL type ("@
            + spec_decimal_digits(required_len as nat)
            + ")"@,
        OoglError::StrideMismatch { stride, vertex_size } => "stride calculated from the vertex attribute pointers ("@
            + spec_decimal_digits(stride as nat)
            + " bytes) doesn't match the size of the vertex type ("@
            + spec_decimal_digits(vertex_size as nat)
            + " bytes)"@,
        OoglError::OverlappingBinding { new_addr, old_addr } => "attempt to bind object #"@
            + spec_decimal_digits(new_addr as nat)
            + " while the binding of object #"@
            + spec_decimal_digits(old_addr as nat)
            + " is still alive"@,
        OoglError::DataLengthMismatch { slice_len, range_len } => "data slice length ("@
            + spec_decimal_digits(slice_len as nat)
            + ") doesn't match the specified buffer slice length ("@
            + spec_decimal_digits(range_len as nat)
            + ")"@,
        OoglError::RangeOutOfBounds { start, end, len } => "range "@
            + spec_decimal_digits(start as nat)
            + ".."@
            + spec_decimal_digits(end as nat)
            + " is out of bounds for a buffer of length "@
            + spec_decimal_digits(len as nat),
        OoglError::TextureUnitOutOfRange { unit, max_units } => "texture unit "@
            + spec_decimal_digits(unit as nat)
            + " is out of range: the device supports "@
            + spec_decimal_digits(max_units as nat)
            + " texture units"@,
        OoglError::NoFreeTextureUnits => "no free texture units left"@,
        OoglError::ZeroTextureSize { width, height } => "texture size "@
            + spec_decimal_digits(width as nat)
            + "x"@
            + spec_decimal_digits(height as nat)
            + " has a zero dimension"@,
        OoglError::TextureSizeTooLarge { width, height, max_size } => "texture size "@
            + spec_decimal_digits(width as nat)
            + "x"@
            + spec_decimal_digits(height as nat)
            + " exceeds the maximum texture size "@
            + spec_decimal_digits(max_size as nat),
        OoglError::TexelCountMismatch { slice_len, expected_len } => "data slice length ("@
            + spec_decimal_digits(slice_len as nat)
            + ") doesn't match the texel count of the specified region ("@
            + spec_decimal_digits(expected_len as nat)
            + ")"@,
        OoglError::LabelTooLong { len, max_len } => "debug label length ("@
            + spec_decimal_digits(len as nat)
            + ") exceeds the driver-reported maximum ("@
            + spec_decimal_i32(max_len)
            + ")"@,
        OoglError::LabelHasNulByte => "data provided contains an interior nul byte"@,
        OoglError::RequiredExtensionMissing => "the driver does not support an unconditionally required extension"@,
        }
    }

    /// Renders the diagnostic text of the error, naming the offending values.
    pub fn message(&self) -> (text: String)
        ensures
            text@ == self.spec_message(),
    {
        match self {
        OoglError::UniformTypeMismatch { name, requested, declared } => {
            let mut message = String::from_str("mismatched uniform types: values assignable to `");
            message.append(crate::shader::type_list_string(requested).as_str());
            message.append("` cannot be stored into the uniform `");
            message.append(name.as_str());
            message.append("` with the GLSL type `");
            message.append(declared.type_string().as_str());
            message.append("`");
            message
        },
        OoglError::AttribTypeMismatch { name, requested, declared } => {
            let mut message = String::from_str("mismatched attribute types: values assignable to `");
            message.append(crate::shader::type_list_string(requested).as_str());
            message.append("` cannot be stored into the attribute `");
            message.append(name.as_str());
            message.append("` with the GLSL type `");
            message.append(declared.type_string().as_str());
            message.append("`");
            message
        },
        OoglError::AttribPtrLenMismatch { location, specified_len, required_len } => {
            let mut message = String::from_str("specified length (");
            message.append(decimal_string(*specified_len as u128).as_str());
            message.append(") for the attribute (location = ");
            message.append(decimal_string(*location as u128).as_str());
            message.append(") pointer type doesn't match the number of components required by its GLSL type (");
            message.append(decimal_string(*required_len as u128).as_str());
            message.append(")");
            message
        },
        OoglError::StrideMismatch { stride, vertex_size } => {
            let mut message = String::from_str("stride calculated from the vertex attribute pointers (");
            message.append(decimal_string(*stride as u128).as_str());
            message.append(" bytes) doesn't match the size of the vertex type (");
            message.append(decimal_string(*vertex_size as u128).as_str());
            message.append(" bytes)");
            message
        },
        OoglError::OverlappingBinding { new_addr, old_addr } => {
            let mut message = String::from_str("attempt to bind object #");
            message.append(decimal_string(*new_addr as u128).as_str());
            message.append(" while the binding of object #");
            message.append(decimal_string(*old_addr as u128).as_str());
            message.append(" is still alive");
            message
        },
        OoglError::DataLengthMismatch { slice_len, range_len } => {
            let mut message = String::from_str("data slice length (");
            message.append(decimal_string(*slice_len as u128).as_str());
            message.append(") doesn't match the specified buffer slice length (");
            message.append(decimal_string(*range_len as u128).as_str());
            message.append(")");
            message
        },
        OoglError::RangeOutOfBounds { start, end, len } => {
            let mut message = String::from_str("range ");
            message.append(decimal_string(*start as u128).as_str());
            message.append("..");
            message.append(decimal_string(*end as u128).as_str());
            message.append(" is out of bounds for a buffer of length ");
            message.append(decimal_string(*len as u128).as_str());
            message
        },
        OoglError::TextureUnitOutOfRange { unit, max_units } => {
            let mut message = String::from_str("texture unit ");
            message.append(decimal_string(*unit as u128).as_str());
            message.append(" is out of range: the device supports ");
            message.append(decimal_string(*max_units as u128).as_str());
            message.append(" texture units");
            message
        },
        OoglError::NoFreeTextureUnits => {
            let mut message = String::from_str("no free texture units left");
            message
        },
        OoglError::ZeroTextureSize { width, height } => {
            let mut message = String::from_str("texture size ");
            message.append(decimal_string(*width as u128).as_str());
            message.append("x");
            message.append(decimal_string(*height as u128).as_str());
            message.append(" has a zero dimension");
            message
        },
        OoglError::TextureSizeTooLarge { width, height, max_size } => {
            let mut message = String::from_str("texture size ");
            message.append(decimal_string(*width as u128).as_str());
            message.append("x");
            message.append(decimal_string(*height as u128).as_str());
            message.append(" exceeds the maximum texture size ");
            message.append(decimal_string(*max_size as u128).as_str());
            message
        },
        OoglError::TexelCountMismatch { slice_len, expected_len } => {
            let mut message = String::from_str("data slice length (");
            message.append(decimal_string(*slice_len as u128).as_str());
            message.append(") doesn't match the texel count of the specified region (");
            message.append(decimal_string(*expected_len as u128).as_str());
            message.append(")");
            message
        },
        OoglError::LabelTooLong { len, max_len } => {
            let mut message = String::from_str("debug label length (");
            message.append(decimal_string(*len as u128).as_str());
            message.append(") exceeds the driver-reported maximum (");
            message.append(decimal_string_i32(*max_len).as_str());
            message.append(")");
            message
        },
        OoglError::LabelHasNulByte => {
            let mut message = String::from_str("data provided contains an interior nul byte");
            message
        },
        OoglError::RequiredExtensionMissing => {
            let mut message = String::from_str("the driver does not support an unconditionally required extension");
            message
        },
        }
    }
}

} // verus!
