//! The user entity and its two value types.
use vstd::prelude::*;
use vstd::string::*;
use vstd::utf8::is_ascii_chars;

verus! {

/// Fewest characters a user name may have.
pub const MIN_NAME_LEN: usize = 2;

/// Most characters a user name may have.
pub const MAX_NAME_LEN: usize = 10;

/// Why a raw string was refused as a user name.
#[derive(Clone, Copy, Debug, PartialEq, Eq, Structural)]
pub enum UserNameError {
    /// Some character lies outside the 7-bit ASCII range.
    NonAscii,
    /// The number of characters lies outside `MIN_NAME_LEN..=MAX_NAME_LEN`.
    LengthOutOfBounds,
}

/// The message that describes an error of name validation.
pub open spec fn user_name_error_message(e: UserNameError) -> Seq<char> {
    match e {
        UserNameError::NonAscii => "username should consist of ascii characters"@,
        UserNameError::LengthOutOfBounds => "username should consist of from 2 to 10 characters"@,
    }
}

impl UserNameError {
    /// The human-readable description of this error.
    pub fn message(&self) -> (r: String)
        ensures
            r@ == user_name_error_message(*self),
    {
        match self {
            UserNameError::NonAscii => {
                let m = "username should consist of ascii characters";
                proof {
                    reveal_strlit("username should consist of ascii characters");
                }
                m.to_string()
            },
            UserNameError::LengthOutOfBounds => {
                let m = "username should consist of from 2 to 10 characters";
                proof {
                    reveal_strlit("username should consist of from 2 to 10 characters");
                }
                m.to_string()
            },
        }
    }
}

/// Whether the character count of `s` is within the allowed bounds.
pub open spec fn name_len_in_bounds(s: Seq<char>) -> bool {
    MIN_NAME_LEN <= s.len() <= MAX_NAME_LEN
}

/// Whether `s` may be the text of a user name.
pub open spec fn is_valid_user_name(s: Seq<char>) -> bool {
    is_ascii_chars(s) && name_len_in_bounds(s)
}

/// The outcome of validating `s` as a user name: the ASCII check comes
/// first, then the length check, and an accepted name is kept unchanged.
pub open spec fn validate_user_name(s: Seq<char>) -> Result<Seq<char>, UserNameError> {
    if !is_ascii_chars(s) {
        Err(UserNameError::NonAscii)
    } else if !name_len_in_bounds(s) {
        Err(UserNameError::LengthOutOfBounds)
    } else {
        Ok(s)
    }
}

/// Every string of 2 to 10 ASCII characters is accepted as a user name,
/// and the name holds that string unchanged.
pub proof fn lemma_in_bounds_ascii_accepted(s: Seq<char>)
    requires
        is_ascii_chars(s),
        2 <= s.len() <= 10,
    ensures
        validate_user_name(s) == Ok::<Seq<char>, UserNameError>(s),
{
}

/// Every string shorter than 2 or longer than 10 characters is refused;
/// when all its characters are ASCII the refusal is a length error.
pub proof fn lemma_out_of_bounds_refused(s: Seq<char>)
    requires
        s.len() < 2 || s.len() > 10,
    ensures
        validate_user_name(s) is Err,
        is_ascii_chars(s) ==> validate_user_name(s) == Err::<Seq<char>, UserNameError>(
            UserNameError::LengthOutOfBounds,
        ),
{
}

/// Every string holding a character outside the ASCII range is refused
/// with a non-ASCII error, whatever its length.
pub proof fn lemma_non_ascii_refused(s: Seq<char>, i: int)
    requires
        0 <= i < s.len(),
        s[i] > '\u{7f}',
    ensures
        validate_user_name(s) == Err::<Seq<char>, UserNameError>(UserNameError::NonAscii),
{
}

/// A display name of between 2 and 10 ASCII characters.
#[derive(Debug)]
pub struct UserName(String);

impl View for UserName {
    type V = Seq<char>;

    closed spec fn view(&self) -> Seq<char> {
        self.0@
    }
}

impl Clone for UserName {
    fn clone(&self) -> (r: UserName)
        ensures
            r == *self,
    {
        proof {
            use_type_invariant(self);
        }
        UserName(self.0.clone())
    }
}

impl TryFrom<String> for UserName {
    type Error = UserNameError;

    fn try_from(name: String) -> (r: Result<UserName, UserNameError>) {
        UserName::new(name)
    }
}

impl vstd::std_specs::convert::TryFromSpecImpl<String> for UserName {
    open spec fn obeys_try_from_spec() -> bool {
        true
    }

    open spec fn try_from_spec(name: String) -> Result<UserName, UserNameError> {
        match validate_user_name(name@) {
            Ok(_) => Ok(UserName::spec_from(name)),
            Err(e) => Err(e),
        }
    }
}

impl UserName {
    #[verifier::type_invariant]
    spec fn inv(self) -> bool {
        is_valid_user_name(self.0@)
    }

    /// The name that holds the string `s` itself.
    pub closed spec fn spec_from(s: String) -> UserName {
        UserName(s)
    }

    /// Validates `name` and wraps it, unchanged, as a user name.
    pub fn new(name: String) -> (r: Result<UserName, UserNameError>)
        ensures
            match validate_user_name(name@) {
                Ok(s) => r is Ok && r->Ok_0@ == s && r->Ok_0 == UserName::spec_from(name),
                Err(e) => r == Err::<UserName, UserNameError>(e),
            },
    {
        if !name.is_ascii() {
            return Err(UserNameError::NonAscii);
        }
        let text = name.as_str();
        proof {
            is_ascii_spec_bytes(text);
        }
        let len = text.as_bytes().len();
        if len < MIN_NAME_LEN || len > MAX_NAME_LEN {
            return Err(UserNameError::LengthOutOfBounds);
        }
        Ok(UserName(name))
    }

    /// The name's text.
    pub fn as_str(&self) -> (r: &str)
        ensures
            r@ == self@,
            is_valid_user_name(r@),
    {
        proof {
            use_type_invariant(self);
        }
        self.0.as_str()
    }

    /// The name rendered as text: exactly the string it was built from.
    pub fn to_string(&self) -> (r: String)
        ensures
            r@ == self@,
    {
        self.0.clone()
    }
}

/// Bits of a UUID that hold its version nibble and the top two bits of
/// its variant, read as a big-endian 128-bit integer.
pub const UUID_VERSION_VARIANT_MASK: u128 = 0xF000_C000_0000_0000_0000;

/// What a version-4 (random) UUID of the RFC 4122 variant holds in the
/// bits of `UUID_VERSION_VARIANT_MASK`: version 4, variant `0b10`.
pub const UUID_V4_MARK: u128 = 0x4000_8000_0000_0000_0000;

/// Whether `v` carries the version and variant bits of a random UUID;
/// the other 122 bits are free.
pub open spec fn is_random_uuid(v: u128) -> bool {
    v & UUID_VERSION_VARIANT_MASK == UUID_V4_MARK
}

/// The canonical hyphenated lower-case text of the UUID whose big-endian
/// value is `v`.
pub uninterp spec fn uuid_hyphenated(v: u128) -> Seq<char>;

/// Relies on `uuid::Uuid::new_v4`, read back with `Uuid::as_u128`: a fresh
/// random value, with the version and variant bits set as the crate's
/// source masks them in.
#[verifier::external_body]
fn random_uuid() -> (r: u128)
    ensures
        is_random_uuid(r),
{
    uuid::Uuid::new_v4().as_u128()
}

/// Relies on `uuid::Uuid::from_u128` and the `Display` of
/// `uuid::fmt::Hyphenated`: the 36-character canonical text of the value.
#[verifier::external_body]
fn uuid_text(v: u128) -> (r: String)
    ensures
        r@ == uuid_hyphenated(v),
        r@.len() == 36,
{
    uuid::Uuid::from_u128(v).hyphenated().to_string()
}

/// The identity of a user: a random 128-bit UUID, kept as its big-endian
/// integer value.
#[derive(Clone, Copy, Debug, PartialEq, Eq, Hash, Structural)]
pub struct UserId(u128);

impl View for UserId {
    type V = u128;

    closed spec fn view(&self) -> u128 {
        self.0
    }
}

impl UserId {
    /// A freshly generated random identity.
    pub fn new() -> (r: UserId)
        ensures
            is_random_uuid(r@),
    {
        UserId(random_uuid())
    }

    /// The identity as a big-endian 128-bit integer.
    pub fn as_u128(&self) -> (r: u128)
        ensures
            r == self@,
    {
        self.0
    }

    /// The identity rendered in the canonical hyphenated UUID form.
    pub fn to_string(&self) -> (r: String)
        ensures
            r@ == uuid_hyphenated(self@),
            r@.len() == 36,
    {
        uuid_text(self.0)
    }
}

/// A user: a generated identity and a validated name.
#[derive(Debug)]
pub struct User {
    id: UserId,
    name: UserName,
}

impl View for User {
    /// The identity's value and the name's text.
    type V = (u128, Seq<char>);

    closed spec fn view(&self) -> (u128, Seq<char>) {
        (self.id@, self.name@)
    }
}

impl Clone for User {
    fn clone(&self) -> (r: User)
        ensures
            r@ == self@,
    {
        User { id: self.id, name: self.name.clone() }
    }
}

impl User {
    /// A user with a freshly generated identity and the given name.
    pub fn new(name: UserName) -> (r: User)
        ensures
            r@.1 == name@,
            is_random_uuid(r@.0),
    {
        User { id: UserId::new(), name }
    }

    /// The user's identity.
    pub fn id(&self) -> (r: &UserId)
        ensures
            r@ == self@.0,
    {
        &self.id
    }

    /// The user's name.
    pub fn name(&self) -> (r: &UserName)
        ensures
            r@ == self@.1,
    {
        &self.name
    }
}

} // verus!
