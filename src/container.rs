use vstd::prelude::*;

verus! {

/// Length of the identifier that opens every container.
pub const ID_LEN: usize = 6;

/// The only container version this library reads.
pub const VERSION: u8 = 1;

/// Offset of the ciphertext: identifier, version, 32-byte salt, 4-byte iteration count.
pub const HEADER_LEN: usize = 43;

/// Smallest ciphertext: a 12-byte nonce, a 2-byte empty JSON array, a 16-byte tag.
pub const MINIMUM_DATA: usize = 30;

/// Why a byte stream is not a container.
#[derive(Debug, PartialEq, Eq, Clone, Copy)]
pub enum FormatError {
    /// The stream ends inside the fixed-width header.
    UnexpectedEnd,
    /// The first six bytes are not the container identifier.
    BadIdentifier,
    /// The version byte is not the supported one.
    UnsupportedVersion,
    /// The iteration count is zero.
    InvalidIterations,
    /// The ciphertext is shorter than the smallest possible payload.
    TruncatedPayload,
}

impl FormatError {
    /// A short description for display.
    pub fn message(&self) -> (r: &'static str) {
        match self {
            FormatError::UnexpectedEnd => "unexpected end of file",
            FormatError::BadIdentifier => "bad identifier",
            FormatError::UnsupportedVersion => "unsupported version",
            FormatError::InvalidIterations => "invalid iteration count",
            FormatError::TruncatedPayload => "truncated payload",
        }
    }
}

/// The identifier `FF 'K' 'W' 'R' 'A' 'P'`.
pub open spec fn magic() -> Seq<u8> {
    seq![0xffu8, 0x4bu8, 0x57u8, 0x52u8, 0x41u8, 0x50u8]
}

/// A big-endian unsigned integer of four bytes.
pub open spec fn be_u32(b: Seq<u8>) -> int {
    b[0] * 16777216 + b[1] * 65536 + b[2] * 256 + b[3]
}

/// The iteration count field of a stream at least `HEADER_LEN` long.
pub open spec fn iterations_field(b: Seq<u8>) -> int {
    be_u32(b.subrange(39, 43))
}

/// The outcome of parsing a byte stream: salt, iteration count and ciphertext,
/// or the first structural violation met in reading order.
pub open spec fn parse_spec(b: Seq<u8>) -> Result<(Seq<u8>, int, Seq<u8>), FormatError> {
    if b.len() < 6 {
        Err(FormatError::UnexpectedEnd)
    } else if b.subrange(0, 6) != magic() {
        Err(FormatError::BadIdentifier)
    } else if b.len() < 7 {
        Err(FormatError::UnexpectedEnd)
    } else if b[6] != VERSION {
        Err(FormatError::UnsupportedVersion)
    } else if b.len() < HEADER_LEN {
        Err(FormatError::UnexpectedEnd)
    } else if iterations_field(b) == 0 {
        Err(FormatError::InvalidIterations)
    } else if b.len() < HEADER_LEN + MINIMUM_DATA {
        Err(FormatError::TruncatedPayload)
    } else {
        Ok((b.subrange(7, 39), iterations_field(b), b.subrange(43, b.len() as int)))
    }
}

/// A parsed container: the salt and iteration count of its key, and its ciphertext.
#[derive(Debug)]
pub struct KwrapFile {
    pub salt: [u8; 32],
    pub iterations: u32,
    pub data: Vec<u8>,
}

impl KwrapFile {
    /// Parses a container from its bytes, in one pass.
    pub fn parse(bytes: &[u8]) -> (r: Result<KwrapFile, FormatError>)
        ensures
            match parse_spec(bytes@) {
                Ok((salt, iterations, data)) => r matches Ok(f) && f.salt@ == salt
                    && f.iterations == iterations && f.data@ == data,
                Err(e) => r == Err::<KwrapFile, FormatError>(e),
            },
    {
        let mut pos: usize = 0;
        Self::read_id(bytes, &mut pos)?;
        Self::read_vsersion(bytes, &mut pos)?;
        let salt = Self::read_salt(bytes, &mut pos)?;
        let iterations = Self::read_iterations(bytes, &mut pos)?;
        let data = Self::read_data(bytes, &mut pos)?;
        assert(salt@ =~= bytes@.subrange(7, 39));
        Ok(KwrapFile { salt, iterations, data })
    }

    fn read_id(r: &[u8], pos: &mut usize) -> (res: Result<(), FormatError>)
        requires
            *old(pos) == 0,
        ensures
            r@.len() < 6 ==> res == Err::<(), FormatError>(FormatError::UnexpectedEnd),
            r@.len() >= 6 && r@.subrange(0, 6) != magic() ==> res == Err::<(), FormatError>(
                FormatError::BadIdentifier,
            ),
            r@.len() >= 6 && r@.subrange(0, 6) == magic() ==> res is Ok && *final(pos) == 6,
    {
        if r.len() < ID_LEN {
            return Err(FormatError::UnexpectedEnd);
        }
        let ok = r[0] == 0xff && r[1] == 0x4b && r[2] == 0x57 && r[3] == 0x52 && r[4] == 0x41
            && r[5] == 0x50;
        if ok {
            assert(r@.subrange(0, 6) =~= magic());
            *pos = ID_LEN;
            Ok(())
        } else {
            assert(r@.subrange(0, 6)[0] == r@[0]);
            assert(r@.subrange(0, 6)[1] == r@[1]);
            assert(r@.subrange(0, 6)[2] == r@[2]);
            assert(r@.subrange(0, 6)[3] == r@[3]);
            assert(r@.subrange(0, 6)[4] == r@[4]);
            assert(r@.subrange(0, 6)[5] == r@[5]);
            Err(FormatError::BadIdentifier)
        }
    }

    fn read_vsersion(r: &[u8], pos: &mut usize) -> (res: Result<(), FormatError>)
        requires
            *old(pos) == 6,
        ensures
            r@.len() < 7 ==> res == Err::<(), FormatError>(FormatError::UnexpectedEnd),
            r@.len() >= 7 && r@[6] != VERSION ==> res == Err::<(), FormatError>(
                FormatError::UnsupportedVersion,
            ),
            r@.len() >= 7 && r@[6] == VERSION ==> res is Ok && *final(pos) == 7,
    {
        if r.len() < 7 {
            return Err(FormatError::UnexpectedEnd);
        }
        if r[6] == VERSION {
            *pos = 7;
            Ok(())
        } else {
            Err(FormatError::UnsupportedVersion)
        }
    }

    fn read_salt(r: &[u8], pos: &mut usize) -> (res: Result<[u8; 32], FormatError>)
        requires
            *old(pos) == 7,
        ensures
            r@.len() < 39 ==> res == Err::<[u8; 32], FormatError>(FormatError::UnexpectedEnd),
            r@.len() >= 39 ==> (res matches Ok(s) && s@ == r@.subrange(7, 39) && *final(pos)
                == 39),
    {
        if r.len() < 39 {
            return Err(FormatError::UnexpectedEnd);
        }
        let mut salt = [0u8; 32];
        let mut i: usize = 0;
        while i < 32
            invariant
                r@.len() >= 39,
                0 <= i <= 32,
                forall|j: int| 0 <= j < i ==> salt@[j] == r@[7 + j],
            decreases 32 - i,
        {
            salt[i] = r[7 + i];
            i = i + 1;
        }
        assert(salt@ =~= r@.subrange(7, 39));
        *pos = 39;
        Ok(salt)
    }

    fn read_iterations(r: &[u8], pos: &mut usize) -> (res: Result<u32, FormatError>)
        requires
            *old(pos) == 39,
        ensures
            r@.len() < HEADER_LEN ==> res == Err::<u32, FormatError>(FormatError::UnexpectedEnd),
            r@.len() >= HEADER_LEN && iterations_field(r@) == 0 ==> res == Err::<u32, FormatError>(
                FormatError::InvalidIterations,
            ),
            r@.len() >= HEADER_LEN && iterations_field(r@) != 0 ==> (res matches Ok(n) && n
                == iterations_field(r@) && *final(pos) == HEADER_LEN),
    {
        if r.len() < HEADER_LEN {
            return Err(FormatError::UnexpectedEnd);
        }
        let iterations: u32 = (r[39] as u32) * 16777216 + (r[40] as u32) * 65536 + (r[41] as u32)
            * 256 + (r[42] as u32);
        assert(iterations == iterations_field(r@));
        if iterations == 0 {
            return Err(FormatError::InvalidIterations);
        }
        *pos = HEADER_LEN;
        Ok(iterations)
    }

    fn read_data(r: &[u8], pos: &mut usize) -> (res: Result<Vec<u8>, FormatError>)
        requires
            *old(pos) == HEADER_LEN,
            r@.len() >= HEADER_LEN,
        ensures
            r@.len() < HEADER_LEN + MINIMUM_DATA ==> res == Err::<Vec<u8>, FormatError>(
                FormatError::TruncatedPayload,
            ),
            r@.len() >= HEADER_LEN + MINIMUM_DATA ==> (res matches Ok(d) && d@ == r@.subrange(
                HEADER_LEN as int,
                r@.len() as int,
            ) && *final(pos) == r@.len()),
    {
        if r.len() - HEADER_LEN < MINIMUM_DATA {
            return Err(FormatError::TruncatedPayload);
        }
        let mut data: Vec<u8> = Vec::new();
        let mut i: usize = HEADER_LEN;
        while i < r.len()
            invariant
                HEADER_LEN <= i <= r@.len(),
                data@ == r@.subrange(HEADER_LEN as int, i as int),
            decreases r@.len() - i,
        {
            data.push(r[i]);
            i = i + 1;
            assert(data@ =~= r@.subrange(HEADER_LEN as int, i as int));
        }
        *pos = i;
        Ok(data)
    }
}

} // verus!
