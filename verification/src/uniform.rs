//! Uniforms: resolving the location of a uniform by name, and uploading values to
//! a location.
//!
//! A location belongs to the program in which it was resolved, as that program was
//! linked last; the driver ignores an upload to the location -1, which it gives for
//! a name that it does not find. An upload of an array tells the driver how many
//! elements to read from caller memory. That count is the length of the data divided
//! by the number of components of an element, and data that does not divide into
//! whole elements is refused: the driver is never told a count that the data does
//! not cover.

use vstd::prelude::*;
use crate::command::{CallerError, Command};
use crate::exchange::{planned, Exchange, ExchangeView};
use crate::shader::ShaderProgram;
use crate::text::{contains_nul, has_nul};

verus! {

/// The location of a uniform in a linked program.
#[derive(Copy, Clone, PartialEq, Eq, Structural, Debug)]
pub struct UniformLocation {
    loc: i32,
}

impl UniformLocation {
    /// The driver's number of the location; -1 is the location of no uniform.
    pub closed spec fn spec_loc(self) -> i32 {
        self.loc
    }

    /// The location that the driver returned as `loc`.
    pub fn new(loc: i32) -> (location: UniformLocation)
        ensures
            location.spec_loc() == loc,
    {
        UniformLocation { loc }
    }

    #[verifier::when_used_as_spec(spec_loc)]
    pub fn loc(self) -> (loc: i32)
        ensures
            loc == self.spec_loc(),
    {
        self.loc
    }
}

/// Resolves the uniform that `program` knows under `name`, given as the bytes of the
/// name without a terminator. A name with a zero byte is refused. The exchange takes
/// the location that the driver returns.
pub fn get_uniform_location(program: &ShaderProgram, name: &[u8]) -> (result: Result<
    Exchange<UniformLocation>,
    CallerError,
>)
    ensures
        planned(result) == if has_nul(name@) {
            Err::<ExchangeView<UniformLocation>, CallerError>(CallerError::InteriorNul)
        } else {
            Ok(ExchangeView::Call(Command::GetUniformLocation { program: program.spec_id() }))
        },
{
    if contains_nul(name) {
        Err(CallerError::InteriorNul)
    } else {
        Ok(Exchange::call(Command::GetUniformLocation { program: program.id() }))
    }
}

/// The number of elements of `components` values each that data of `len` values
/// holds, as the driver is told it.
pub open spec fn elements(len: usize, components: usize) -> Result<i32, CallerError> {
    if len % components != 0 {
        Err(CallerError::NotDivisible { length: len, components })
    } else if len / components > i32::MAX {
        Err(CallerError::TooLong { length: len })
    } else {
        Ok((len / components) as i32)
    }
}

/// What the upload of an array comes to: the command made of the count of whole
/// elements, or the mistake that the count shows.
pub open spec fn array_upload(
    len: usize,
    components: usize,
    command: spec_fn(i32) -> Command,
) -> Result<ExchangeView<()>, CallerError> {
    match elements(len, components) {
        Ok(count) => Ok(ExchangeView::Call(command(count))),
        Err(error) => Err(error),
    }
}

/// Counts the elements of `components` values each in data of `len` values.
pub fn element_count(len: usize, components: usize) -> (result: Result<i32, CallerError>)
    requires
        components > 0,
    ensures
        result == elements(len, components),
{
    if len % components != 0 {
        Err(CallerError::NotDivisible { length: len, components })
    } else {
        let count: usize = len / components;
        if count > i32::MAX as usize {
            Err(CallerError::TooLong { length: len })
        } else {
            Ok(count as i32)
        }
    }
}

/// Whole elements cover the data exactly: the driver reads all of it and nothing
/// past it.
pub proof fn lemma_count_covers_data(len: usize, components: usize)
    requires
        components > 0,
    ensures
        elements(len, components) matches Ok(count) ==> count * components == len,
        elements(len, components) is Ok ==> len % components == 0,
{
    if elements(len, components) is Ok {
        assert((len / components) * components == len) by (nonlinear_arith)
            requires
                components > 0,
                len % components == 0,
        ;
    }
}

/// Uploads one float value of one component to `location`. The components are given
/// as the bit patterns of 32-bit floats.
pub fn uniform1f(location: UniformLocation, v0: u32) -> (exchange: Exchange<()>)
    ensures
        exchange@ == ExchangeView::<()>::Call(
            Command::Uniform1f { location: location.spec_loc(), v0 },
        ),
{
    Exchange::call(Command::Uniform1f { location: location.loc(), v0 })
}

/// Uploads one float value of 2 components to `location`. The components are given
/// as the bit patterns of 32-bit floats.
pub fn uniform2f(location: UniformLocation, v0: u32, v1: u32) -> (exchange: Exchange<()>)
    ensures
        exchange@ == ExchangeView::<()>::Call(
            Command::Uniform2f { location: location.spec_loc(), v0, v1 },
        ),
{
    Exchange::call(Command::Uniform2f { location: location.loc(), v0, v1 })
}

/// Uploads one float value of 3 components to `location`. The components are given
/// as the bit patterns of 32-bit floats.
pub fn uniform3f(location: UniformLocation, v0: u32, v1: u32, v2: u32) -> (exchange: Exchange<()>)
    ensures
        exchange@ == ExchangeView::<()>::Call(
            Command::Uniform3f { location: location.spec_loc(), v0, v1, v2 },
        ),
{
    Exchange::call(Command::Uniform3f { location: location.loc(), v0, v1, v2 })
}

/// Uploads one float value of 4 components to `location`. The components are given
/// as the bit patterns of 32-bit floats.
pub fn uniform4f(
    location: UniformLocation,
    v0: u32,
    v1: u32,
    v2: u32,
    v3: u32,
) -> (exchange: Exchange<()>)
    ensures
        exchange@ == ExchangeView::<()>::Call(
            Command::Uniform4f { location: location.spec_loc(), v0, v1, v2, v3 },
        ),
{
    Exchange::call(Command::Uniform4f { location: location.loc(), v0, v1, v2, v3 })
}

/// Uploads one signed integer value of one component to `location`.
pub fn uniform1i(location: UniformLocation, v0: i32) -> (exchange: Exchange<()>)
    ensures
        exchange@ == ExchangeView::<()>::Call(
            Command::Uniform1i { location: location.spec_loc(), v0 },
        ),
{
    Exchange::call(Command::Uniform1i { location: location.loc(), v0 })
}

/// Uploads one signed integer value of 2 components to `location`.
pub fn uniform2i(location: UniformLocation, v0: i32, v1: i32) -> (exchange: Exchange<()>)
    ensures
        exchange@ == ExchangeView::<()>::Call(
            Command::Uniform2i { location: location.spec_loc(), v0, v1 },
        ),
{
    Exchange::call(Command::Uniform2i { location: location.loc(), v0, v1 })
}

/// Uploads one signed integer value of 3 components to `location`.
pub fn uniform3i(location: UniformLocation, v0: i32, v1: i32, v2: i32) -> (exchange: Exchange<()>)
    ensures
        exchange@ == ExchangeView::<()>::Call(
            Command::Uniform3i { location: location.spec_loc(), v0, v1, v2 },
        ),
{
    Exchange::call(Command::Uniform3i { location: location.loc(), v0, v1, v2 })
}

/// Uploads one signed integer value of 4 components to `location`.
pub fn uniform4i(
    location: UniformLocation,
    v0: i32,
    v1: i32,
    v2: i32,
    v3: i32,
) -> (exchange: Exchange<()>)
    ensures
        exchange@ == ExchangeView::<()>::Call(
            Command::Uniform4i { location: location.spec_loc(), v0, v1, v2, v3 },
        ),
{
    Exchange::call(Command::Uniform4i { location: location.loc(), v0, v1, v2, v3 })
}

/// Uploads one unsigned integer value of one component to `location`.
pub fn uniform1ui(location: UniformLocation, v0: u32) -> (exchange: Exchange<()>)
    ensures
        exchange@ == ExchangeView::<()>::Call(
            Command::Uniform1ui { location: location.spec_loc(), v0 },
        ),
{
    Exchange::call(Command::Uniform1ui { location: location.loc(), v0 })
}

/// Uploads one unsigned integer value of 2 components to `location`.
pub fn uniform2ui(location: UniformLocation, v0: u32, v1: u32) -> (exchange: Exchange<()>)
    ensures
        exchange@ == ExchangeView::<()>::Call(
            Command::Uniform2ui { location: location.spec_loc(), v0, v1 },
        ),
{
    Exchange::call(Command::Uniform2ui { location: location.loc(), v0, v1 })
}

/// Uploads one unsigned integer value of 3 components to `location`.
pub fn uniform3ui(location: UniformLocation, v0: u32, v1: u32, v2: u32) -> (exchange: Exchange<()>)
    ensures
        exchange@ == ExchangeView::<()>::Call(
            Command::Uniform3ui { location: location.spec_loc(), v0, v1, v2 },
        ),
{
    Exchange::call(Command::Uniform3ui { location: location.loc(), v0, v1, v2 })
}

/// Uploads one unsigned integer value of 4 components to `location`.
pub fn uniform4ui(
    location: UniformLocation,
    v0: u32,
    v1: u32,
    v2: u32,
    v3: u32,
) -> (exchange: Exchange<()>)
    ensures
        exchange@ == ExchangeView::<()>::Call(
            Command::Uniform4ui { location: location.spec_loc(), v0, v1, v2, v3 },
        ),
{
    Exchange::call(Command::Uniform4ui { location: location.loc(), v0, v1, v2, v3 })
}

/// Uploads an array of float elements of one component each, held in `len` values
/// of caller data, to `location`.
pub fn uniform1fv(location: UniformLocation, len: usize) -> (result: Result<
    Exchange<()>,
    CallerError,
>)
    ensures
        planned(result) == array_upload(
            len,
            1,
            |count: i32| Command::Uniform1fv { location: location.spec_loc(), count },
        ),
{
    match element_count(len, 1) {
        Ok(count) => Ok(Exchange::call(Command::Uniform1fv { location: location.loc(), count })),
        Err(error) => Err(error),
    }
}

/// Uploads an array of float elements of 2 components each, held in `len` values
/// of caller data, to `location`.
pub fn uniform2fv(location: UniformLocation, len: usize) -> (result: Result<
    Exchange<()>,
    CallerError,
>)
    ensures
        planned(result) == array_upload(
            len,
            2,
            |count: i32| Command::Uniform2fv { location: location.spec_loc(), count },
        ),
{
    match element_count(len, 2) {
        Ok(count) => Ok(Exchange::call(Command::Uniform2fv { location: location.loc(), count })),
        Err(error) => Err(error),
    }
}

/// Uploads an array of float elements of 3 components each, held in `len` values
/// of caller data, to `location`.
pub fn uniform3fv(location: UniformLocation, len: usize) -> (result: Result<
    Exchange<()>,
    CallerError,
>)
    ensures
        planned(result) == array_upload(
            len,
            3,
            |count: i32| Command::Uniform3fv { location: location.spec_loc(), count },
        ),
{
    match element_count(len, 3) {
        Ok(count) => Ok(Exchange::call(Command::Uniform3fv { location: location.loc(), count })),
        Err(error) => Err(error),
    }
}

/// Uploads an array of float elements of 4 components each, held in `len` values
/// of caller data, to `location`.
pub fn uniform4fv(location: UniformLocation, len: usize) -> (result: Result<
    Exchange<()>,
    CallerError,
>)
    ensures
        planned(result) == array_upload(
            len,
            4,
            |count: i32| Command::Uniform4fv { location: location.spec_loc(), count },
        ),
{
    match element_count(len, 4) {
        Ok(count) => Ok(Exchange::call(Command::Uniform4fv { location: location.loc(), count })),
        Err(error) => Err(error),
    }
}

/// Uploads an array of signed integer elements of one component each, held in `len` values
/// of caller data, to `location`.
pub fn uniform1iv(location: UniformLocation, len: usize) -> (result: Result<
    Exchange<()>,
    CallerError,
>)
    ensures
        planned(result) == array_upload(
            len,
            1,
            |count: i32| Command::Uniform1iv { location: location.spec_loc(), count },
        ),
{
    match element_count(len, 1) {
        Ok(count) => Ok(Exchange::call(Command::Uniform1iv { location: location.loc(), count })),
        Err(error) => Err(error),
    }
}

/// Uploads an array of signed integer elements of 2 components each, held in `len` values
/// of caller data, to `location`.
pub fn uniform2iv(location: UniformLocation, len: usize) -> (result: Result<
    Exchange<()>,
    CallerError,
>)
    ensures
        planned(result) == array_upload(
            len,
            2,
            |count: i32| Command::Uniform2iv { location: location.spec_loc(), count },
        ),
{
    match element_count(len, 2) {
        Ok(count) => Ok(Exchange::call(Command::Uniform2iv { location: location.loc(), count })),
        Err(error) => Err(error),
    }
}

/// Uploads an array of signed integer elements of 3 components each, held in `len` values
/// of caller data, to `location`.
pub fn uniform3iv(location: UniformLocation, len: usize) -> (result: Result<
    Exchange<()>,
    CallerError,
>)
    ensures
        planned(result) == array_upload(
            len,
            3,
            |count: i32| Command::Uniform3iv { location: location.spec_loc(), count },
        ),
{
    match element_count(len, 3) {
        Ok(count) => Ok(Exchange::call(Command::Uniform3iv { location: location.loc(), count })),
        Err(error) => Err(error),
    }
}

/// Uploads an array of signed integer elements of 4 components each, held in `len` values
/// of caller data, to `location`.
pub fn uniform4iv(location: UniformLocation, len: usize) -> (result: Result<
    Exchange<()>,
    CallerError,
>)
    ensures
        planned(result) == array_upload(
            len,
            4,
            |count: i32| Command::Uniform4iv { location: location.spec_loc(), count },
        ),
{
    match element_count(len, 4) {
        Ok(count) => Ok(Exchange::call(Command::Uniform4iv { location: location.loc(), count })),
        Err(error) => Err(error),
    }
}

/// Uploads an array of unsigned integer elements of one component each, held in `len` values
/// of caller data, to `location`.
pub fn uniform1uiv(location: UniformLocation, len: usize) -> (result: Result<
    Exchange<()>,
    CallerError,
>)
    ensures
        planned(result) == array_upload(
            len,
            1,
            |count: i32| Command::Uniform1uiv { location: location.spec_loc(), count },
        ),
{
    match element_count(len, 1) {
        Ok(count) => Ok(Exchange::call(Command::Uniform1uiv { location: location.loc(), count })),
        Err(error) => Err(error),
    }
}

/// Uploads an array of unsigned integer elements of 2 components each, held in `len` values
/// of caller data, to `location`.
pub fn uniform2uiv(location: UniformLocation, len: usize) -> (result: Result<
    Exchange<()>,
    CallerError,
>)
    ensures
        planned(result) == array_upload(
            len,
            2,
            |count: i32| Command::Uniform2uiv { location: location.spec_loc(), count },
        ),
{
    match element_count(len, 2) {
        Ok(count) => Ok(Exchange::call(Command::Uniform2uiv { location: location.loc(), count })),
        Err(error) => Err(error),
    }
}

/// Uploads an array of unsigned integer elements of 3 components each, held in `len` values
/// of caller data, to `location`.
pub fn uniform3uiv(location: UniformLocation, len: usize) -> (result: Result<
    Exchange<()>,
    CallerError,
>)
    ensures
        planned(result) == array_upload(
            len,
            3,
            |count: i32| Command::Uniform3uiv { location: location.spec_loc(), count },
        ),
{
    match element_count(len, 3) {
        Ok(count) => Ok(Exchange::call(Command::Uniform3uiv { location: location.loc(), count })),
        Err(error) => Err(error),
    }
}

/// Uploads an array of unsigned integer elements of 4 components each, held in `len` values
/// of caller data, to `location`.
pub fn uniform4uiv(location: UniformLocation, len: usize) -> (result: Result<
    Exchange<()>,
    CallerError,
>)
    ensures
        planned(result) == array_upload(
            len,
            4,
            |count: i32| Command::Uniform4uiv { location: location.spec_loc(), count },
        ),
{
    match element_count(len, 4) {
        Ok(count) => Ok(Exchange::call(Command::Uniform4uiv { location: location.loc(), count })),
        Err(error) => Err(error),
    }
}

/// Uploads an array of float matrices of 2 columns and 2 rows, 4 values each,
/// held in `len` values of caller data, to `location`. With `transpose` the data is
/// read row by row.
pub fn uniform_matrix2fv(
    location: UniformLocation,
    transpose: bool,
    len: usize,
) -> (result: Result<Exchange<()>, CallerError>)
    ensures
        planned(result) == array_upload(
            len,
            4,
            |count: i32|
                Command::UniformMatrix2fv { location: location.spec_loc(), count, transpose },
        ),
{
    match element_count(len, 4) {
        Ok(count) => Ok(
            Exchange::call(
                Command::UniformMatrix2fv { location: location.loc(), count, transpose },
            ),
        ),
        Err(error) => Err(error),
    }
}

/// Uploads an array of float matrices of 3 columns and 3 rows, 9 values each,
/// held in `len` values of caller data, to `location`. With `transpose` the data is
/// read row by row.
pub fn uniform_matrix3fv(
    location: UniformLocation,
    transpose: bool,
    len: usize,
) -> (result: Result<Exchange<()>, CallerError>)
    ensures
        planned(result) == array_upload(
            len,
            9,
            |count: i32|
                Command::UniformMatrix3fv { location: location.spec_loc(), count, transpose },
        ),
{
    match element_count(len, 9) {
        Ok(count) => Ok(
            Exchange::call(
                Command::UniformMatrix3fv { location: location.loc(), count, transpose },
            ),
        ),
        Err(error) => Err(error),
    }
}

/// Uploads an array of float matrices of 4 columns and 4 rows, 16 values each,
/// held in `len` values of caller data, to `location`. With `transpose` the data is
/// read row by row.
pub fn uniform_matrix4fv(
    location: UniformLocation,
    transpose: bool,
    len: usize,
) -> (result: Result<Exchange<()>, CallerError>)
    ensures
        planned(result) == array_upload(
            len,
            16,
            |count: i32|
                Command::UniformMatrix4fv { location: location.spec_loc(), count, transpose },
        ),
{
    match element_count(len, 16) {
        Ok(count) => Ok(
            Exchange::call(
                Command::UniformMatrix4fv { location: location.loc(), count, transpose },
            ),
        ),
        Err(error) => Err(error),
    }
}

/// Uploads an array of float matrices of 2 columns and 3 rows, 6 values each,
/// held in `len` values of caller data, to `location`. With `transpose` the data is
/// read row by row.
pub fn uniform_matrix2x3fv(
    location: UniformLocation,
    transpose: bool,
    len: usize,
) -> (result: Result<Exchange<()>, CallerError>)
    ensures
        planned(result) == array_upload(
            len,
            6,
            |count: i32|
                Command::UniformMatrix2x3fv { location: location.spec_loc(), count, transpose },
        ),
{
    match element_count(len, 6) {
        Ok(count) => Ok(
            Exchange::call(
                Command::UniformMatrix2x3fv { location: location.loc(), count, transpose },
            ),
        ),
        Err(error) => Err(error),
    }
}

/// Uploads an array of float matrices of 3 columns and 2 rows, 6 values each,
/// held in `len` values of caller data, to `location`. With `transpose` the data is
/// read row by row.
pub fn uniform_matrix3x2fv(
    location: UniformLocation,
    transpose: bool,
    len: usize,
) -> (result: Result<Exchange<()>, CallerError>)
    ensures
        planned(result) == array_upload(
            len,
            6,
            |count: i32|
                Command::UniformMatrix3x2fv { location: location.spec_loc(), count, transpose },
        ),
{
    match element_count(len, 6) {
        Ok(count) => Ok(
            Exchange::call(
                Command::UniformMatrix3x2fv { location: location.loc(), count, transpose },
            ),
        ),
        Err(error) => Err(error),
    }
}

/// Uploads an array of float matrices of 2 columns and 4 rows, 8 values each,
/// held in `len` values of caller data, to `location`. With `transpose` the data is
/// read row by row.
pub fn uniform_matrix2x4fv(
    location: UniformLocation,
    transpose: bool,
    len: usize,
) -> (result: Result<Exchange<()>, CallerError>)
    ensures
        planned(result) == array_upload(
            len,
            8,
            |count: i32|
                Command::UniformMatrix2x4fv { location: location.spec_loc(), count, transpose },
        ),
{
    match element_count(len, 8) {
        Ok(count) => Ok(
            Exchange::call(
                Command::UniformMatrix2x4fv { location: location.loc(), count, transpose },
            ),
        ),
        Err(error) => Err(error),
    }
}

/// Uploads an array of float matrices of 4 columns and 2 rows, 8 values each,
/// held in `len` values of caller data, to `location`. With `transpose` the data is
/// read row by row.
pub fn uniform_matrix4x2fv(
    location: UniformLocation,
    transpose: bool,
    len: usize,
) -> (result: Result<Exchange<()>, CallerError>)
    ensures
        planned(result) == array_upload(
            len,
            8,
            |count: i32|
                Command::UniformMatrix4x2fv { location: location.spec_loc(), count, transpose },
        ),
{
    match element_count(len, 8) {
        Ok(count) => Ok(
            Exchange::call(
                Command::UniformMatrix4x2fv { location: location.loc(), count, transpose },
            ),
        ),
        Err(error) => Err(error),
    }
}

/// Uploads an array of float matrices of 3 columns and 4 rows, 12 values each,
/// held in `len` values of caller data, to `location`. With `transpose` the data is
/// read row by row.
pub fn uniform_matrix3x4fv(
    location: UniformLocation,
    transpose: bool,
    len: usize,
) -> (result: Result<Exchange<()>, CallerError>)
    ensures
        planned(result) == array_upload(
            len,
            12,
            |count: i32|
                Command::UniformMatrix3x4fv { location: location.spec_loc(), count, transpose },
        ),
{
    match element_count(len, 12) {
        Ok(count) => Ok(
            Exchange::call(
                Command::UniformMatrix3x4fv { location: location.loc(), count, transpose },
            ),
        ),
        Err(error) => Err(error),
    }
}

/// Uploads an array of float matrices of 4 columns and 3 rows, 12 values each,
/// held in `len` values of caller data, to `location`. With `transpose` the data is
/// read row by row.
pub fn uniform_matrix4x3fv(
    location: UniformLocation,
    transpose: bool,
    len: usize,
) -> (result: Result<Exchange<()>, CallerError>)
    ensures
        planned(result) == array_upload(
            len,
            12,
            |count: i32|
                Command::UniformMatrix4x3fv { location: location.spec_loc(), count, transpose },
        ),
{
    match element_count(len, 12) {
        Ok(count) => Ok(
            Exchange::call(
                Command::UniformMatrix4x3fv { location: location.loc(), count, transpose },
            ),
        ),
        Err(error) => Err(error),
    }
}

} // verus!
