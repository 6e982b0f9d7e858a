use crate::container::{be_u32, iterations_field, magic, parse_spec, FormatError, KwrapFile, HEADER_LEN, MINIMUM_DATA, VERSION};
use crate::crypto::{open_spec, pbkdf2, pbkdf2_of, wipe_key, Aes256Gcm};
use vstd::prelude::*;
use vstd::string::StringSliceAdditionalSpecFns;

verus! {

/// Why a local vault could not be opened.
#[derive(Debug, PartialEq, Eq, Clone, Copy)]
pub enum VaultError {
    /// The bytes are not a well-formed container.
    Format(FormatError),
    /// Wrong password or corrupted ciphertext: by design the two look the same.
    Authentication,
}

/// The plaintext that a container's bytes hold under a password.
pub open spec fn open_local_spec(bytes: Seq<u8>, password: Seq<u8>) -> Result<Seq<u8>, VaultError> {
    match parse_spec(bytes) {
        Err(e) => Err(VaultError::Format(e)),
        Ok((salt, iterations, data)) => match open_spec(
            pbkdf2_of(password, salt, iterations as u32),
            data,
        ) {
            Some(plain) => Ok(plain),
            None => Err(VaultError::Authentication),
        },
    }
}

/// Opens a container: parses it, derives its key from the password and decrypts
/// the payload. The derived key is wiped before returning; the caller owns, and
/// must wipe, the plaintext.
pub fn decrypt_container(bytes: &[u8], password: &str) -> (r: Result<Vec<u8>, VaultError>)
    ensures
        match open_local_spec(bytes@, password.spec_bytes()) {
            Ok(plain) => r matches Ok(v) && v@ == plain,
            Err(e) => r == Err::<Vec<u8>, VaultError>(e),
        },
{
    let file = match KwrapFile::parse(bytes) {
        Ok(f) => f,
        Err(e) => return Err(VaultError::Format(e)),
    };
    let KwrapFile { salt, iterations, data } = file;
    let mut cipher = Aes256Gcm::new(pbkdf2(password.as_bytes(), &salt, iterations));
    let mut data = data;
    let opened = cipher.decrypt(&mut data);
    wipe_key(&mut cipher.key);
    match opened {
        Ok(()) => Ok(data),
        Err(_) => Err(VaultError::Authentication),
    }
}

/// A stream whose first six bytes are not the identifier, or whose version byte
/// is not the supported one, is refused as malformed, whatever follows, and so
/// no key is derived for it.
pub proof fn foreign_stream_rejected(bytes: Seq<u8>, password: Seq<u8>)
    requires
        bytes.len() >= 7,
        bytes.subrange(0, 6) != magic() || bytes[6] != VERSION,
    ensures
        parse_spec(bytes) is Err,
        parse_spec(bytes) == Err::<(Seq<u8>, int, Seq<u8>), FormatError>(
            if bytes.subrange(0, 6) != magic() { FormatError::BadIdentifier } else { FormatError::UnsupportedVersion },
        ),
        open_local_spec(bytes, password) == Err::<Seq<u8>, VaultError>(VaultError::Format(
            parse_spec(bytes)->Err_0,
        )),
{
}

/// A container with a well-formed header whose ciphertext is under the minimum
/// length is refused as truncated.
pub proof fn short_payload_rejected(bytes: Seq<u8>)
    requires
        bytes.len() >= HEADER_LEN,
        bytes.len() < HEADER_LEN + MINIMUM_DATA,
        bytes.subrange(0, 6) == magic(),
        bytes[6] == VERSION,
        iterations_field(bytes) != 0,
    ensures
        parse_spec(bytes) == Err::<(Seq<u8>, int, Seq<u8>), FormatError>(FormatError::TruncatedPayload),
{
}

/// The four big-endian bytes of a 32-bit count.
pub open spec fn be_bytes(n: u32) -> Seq<u8> {
    seq![(n / 16777216) as u8, ((n / 65536) % 256) as u8, ((n / 256) % 256) as u8, (n % 256) as u8]
}

/// The container that holds a salt, an iteration count and a ciphertext.
pub open spec fn container_bytes(salt: Seq<u8>, iterations: u32, data: Seq<u8>) -> Seq<u8> {
    magic() + seq![VERSION] + salt + be_bytes(iterations) + data
}

/// A container built from a 32-byte salt, a nonzero iteration count and a
/// ciphertext of at least the minimum length opens to what that ciphertext opens
/// to under the key derived from the password, the salt and the count; where it
/// does not open, the failure is the authentication error.
pub proof fn well_formed_container_opens(
    salt: Seq<u8>,
    iterations: u32,
    data: Seq<u8>,
    password: Seq<u8>,
)
    requires
        salt.len() == 32,
        iterations != 0,
        data.len() >= MINIMUM_DATA,
    ensures
        open_local_spec(container_bytes(salt, iterations, data), password) == match open_spec(
            pbkdf2_of(password, salt, iterations),
            data,
        ) {
            Some(plain) => Ok::<Seq<u8>, VaultError>(plain),
            None => Err(VaultError::Authentication),
        },
{
    let b = container_bytes(salt, iterations, data);
    let n = iterations as int;
    assert(b.subrange(0, 6) =~= magic());
    assert(b.subrange(7, 39) =~= salt);
    assert(b.subrange(39, 43) =~= be_bytes(iterations));
    assert(b.subrange(43, b.len() as int) =~= data);
    assert(be_u32(be_bytes(iterations)) == n) by {
        let x = iterations;
        assert((x / 16777216) as u8 == x / 16777216) by (bit_vector);
        assert(((x / 65536) % 256) as u8 == (x / 65536) % 256) by (bit_vector);
        assert(((x / 256) % 256) as u8 == (x / 256) % 256) by (bit_vector);
        assert((x % 256) as u8 == x % 256) by (bit_vector);
        assert((x / 16777216) * 16777216 + ((x / 65536) % 256) * 65536 + ((x / 256) % 256) * 256 + x
            % 256 == x) by (bit_vector);
    }
}

} // verus!
