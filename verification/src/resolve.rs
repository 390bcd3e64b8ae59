use vstd::prelude::*;

use crate::error::Error;

verus! {

/// The platform's success status.
pub const STATUS_OK: u32 = 0;
/// The platform's "unspecified failure" status, returned for virtual folders.
pub const STATUS_FAIL: u32 = 0x8000_4005;
/// The platform's "invalid argument" status.
pub const STATUS_INVALID_ARG: u32 = 0x8007_0057;
/// The platform's "element not found" status.
pub const STATUS_NOT_FOUND: u32 = 0x8007_0002;
/// The platform's "cannot find the path" status.
pub const STATUS_CANNOT_FIND_PATH: u32 = 0x8007_0003;

/// The length of a wide-character string: the number of units before the
/// first NUL, or all of them when no NUL occurs.
pub open spec fn wide_len_spec(units: Seq<u16>) -> nat
    decreases units.len(),
{
    if units.len() == 0 || units[0] == 0 {
        0
    } else {
        1 + wide_len_spec(units.drop_first())
    }
}

/// The wide-character path carried by a buffer: its units up to the first NUL.
pub open spec fn path_units_spec(units: Seq<u16>) -> Seq<u16> {
    units.take(wide_len_spec(units) as int)
}

proof fn lemma_wide_len_characterize(units: Seq<u16>, n: int)
    requires
        0 <= n <= units.len(),
        forall|j: int| 0 <= j < n ==> units[j] != 0,
        n == units.len() || units[n] == 0,
    ensures
        wide_len_spec(units) == n,
    decreases n,
{
    if n == 0 {
    } else {
        assert(units[0] != 0);
        lemma_wide_len_characterize(units.drop_first(), n - 1);
    }
}

/// Measures a wide-character buffer: the number of units before the first NUL.
pub fn wide_len(units: &Vec<u16>) -> (n: usize)
    ensures
        n == wide_len_spec(units@),
        n <= units@.len(),
        forall|j: int| 0 <= j < n ==> units@[j] != 0,
        n < units@.len() ==> units@[n as int] == 0,
{
    let mut i: usize = 0;
    while i < units.len() && *units.get(i).unwrap() != 0
        invariant
            i <= units@.len(),
            forall|j: int| 0 <= j < i ==> units@[j] != 0,
        decreases units@.len() - i,
    {
        i = i + 1;
    }
    proof {
        lemma_wide_len_characterize(units@, i as int);
    }
    i
}

/// Decodes the path out of a wide-character buffer: copies its units up to
/// the first NUL.
pub fn path_units(units: &Vec<u16>) -> (p: Vec<u16>)
    ensures
        p@ == path_units_spec(units@),
{
    let n: usize = wide_len(units);
    let mut p: Vec<u16> = Vec::new();
    let mut i: usize = 0;
    while i < n
        invariant
            i <= n,
            n == wide_len_spec(units@),
            n <= units@.len(),
            p@ == units@.take(i as int),
        decreases n - i,
    {
        p.push(*units.get(i).unwrap());
        proof {
            assert(p@ =~= units@.take(i + 1));
        }
        i = i + 1;
    }
    p
}

proof fn lemma_wide_len_le(units: Seq<u16>)
    ensures
        wide_len_spec(units) <= units.len(),
    decreases units.len(),
{
    if units.len() == 0 || units[0] == 0 {
    } else {
        lemma_wide_len_le(units.drop_first());
    }
}

/// What resolution returns once the platform's query has answered: the
/// decoded path on the success status, otherwise the classified error.
pub open spec fn resolve_spec(status: u32, last_error: u32, units: Seq<u16>) -> Result<
    Seq<u16>,
    Error,
> {
    if status == STATUS_OK {
        Ok(path_units_spec(units))
    } else if status == STATUS_FAIL {
        Err(Error::Virtual)
    } else if status == STATUS_INVALID_ARG {
        Err(Error::InvalidArg(last_error))
    } else if status == STATUS_NOT_FOUND || status == STATUS_CANNOT_FIND_PATH {
        Err(Error::NotFound)
    } else {
        Err(Error::Other(status, last_error))
    }
}

/// The wide-character view of a resolution result.
pub open spec fn result_units(r: Result<Vec<u16>, Error>) -> Result<Seq<u16>, Error> {
    match r {
        Ok(p) => Ok(p@),
        Err(e) => Err(e),
    }
}

/// A platform-allocated wide-character buffer, modelled as its units together
/// with whether it has been handed back to the platform's allocator.
pub struct WideBuffer {
    pub units: Vec<u16>,
    pub released: bool,
}

impl WideBuffer {
    /// Takes charge of a freshly allocated buffer.
    pub fn new(units: Vec<u16>) -> (b: WideBuffer)
        ensures
            b.units == units,
            !b.released,
    {
        WideBuffer { units, released: false }
    }

    /// Hands the buffer back to the platform's allocator. A buffer can be
    /// released only once.
    pub fn release(&mut self)
        requires
            !old(self).released,
        ensures
            final(self).released,
            final(self).units == old(self).units,
    {
        self.released = true;
    }
}

/// Interprets the platform's answer to a folder-path query and releases the
/// returned buffer. The buffer is released exactly once, on the success path
/// and on every error path alike.
pub fn interpret_and_release(status: u32, last_error: u32, buf: &mut WideBuffer) -> (r: Result<
    Vec<u16>,
    Error,
>)
    requires
        !old(buf).released,
    ensures
        final(buf).released,
        final(buf).units == old(buf).units,
        result_units(r) == resolve_spec(status, last_error, old(buf).units@),
{
    let r: Result<Vec<u16>, Error> = if status == STATUS_OK {
        Ok(path_units(&buf.units))
    } else if status == STATUS_FAIL {
        Err(Error::Virtual)
    } else if status == STATUS_INVALID_ARG {
        Err(Error::InvalidArg(last_error))
    } else if status == STATUS_NOT_FOUND || status == STATUS_CANNOT_FIND_PATH {
        Err(Error::NotFound)
    } else {
        Err(Error::Other(status, last_error))
    };
    buf.release();
    r
}

/// Every platform status is classified: the query yields a path exactly on
/// the success status (a non-empty one whenever the buffer begins with a
/// path character), and every failure status maps to exactly one of the four
/// error kinds. An unrecognized failure keeps its raw status code and the
/// last-error detail.
pub proof fn lemma_classification_exhaustive(status: u32, last_error: u32, units: Seq<u16>)
    ensures
        resolve_spec(status, last_error, units) is Ok <==> status == STATUS_OK,
        resolve_spec(status, last_error, units) == Err::<Seq<u16>, Error>(Error::Virtual)
            <==> status == STATUS_FAIL,
        resolve_spec(status, last_error, units) == Err::<Seq<u16>, Error>(
            Error::InvalidArg(last_error),
        ) <==> status == STATUS_INVALID_ARG,
        resolve_spec(status, last_error, units) == Err::<Seq<u16>, Error>(Error::NotFound)
            <==> (status == STATUS_NOT_FOUND || status == STATUS_CANNOT_FIND_PATH),
        resolve_spec(status, last_error, units) == Err::<Seq<u16>, Error>(
            Error::Other(status, last_error),
        ) <==> !(status == STATUS_OK || status == STATUS_FAIL || status == STATUS_INVALID_ARG
            || status == STATUS_NOT_FOUND || status == STATUS_CANNOT_FIND_PATH),
        (status == STATUS_OK && units.len() > 0 && units[0] != 0) ==> (resolve_spec(
            status,
            last_error,
            units,
        ) matches Ok(p) && p.len() > 0),
{
    lemma_wide_len_le(units);
}

/// Resolution is idempotent: on an unchanged system, where the platform's
/// query answers a repeated request with the same status, last-error detail
/// and buffer contents, the resolved path or error is the same both times.
pub proof fn lemma_resolution_idempotent(
    status1: u32,
    last_error1: u32,
    units1: Seq<u16>,
    status2: u32,
    last_error2: u32,
    units2: Seq<u16>,
)
    requires
        status1 == status2,
        last_error1 == last_error2,
        units1 == units2,
    ensures
        resolve_spec(status1, last_error1, units1) == resolve_spec(status2, last_error2, units2),
{
}

} // verus!

