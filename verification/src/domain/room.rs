use super::user::UserId;
use vstd::prelude::*;

verus! {

/// The sixteen lower-case hexadecimal digits, in order of value.
pub open spec fn hex_digits() -> Seq<char> {
    seq!['0', '1', '2', '3', '4', '5', '6', '7', '8', '9', 'a', 'b', 'c', 'd', 'e', 'f']
}

/// `value` with its `count` lowest hexadecimal digits dropped.
pub open spec fn drop_hex_digits(value: int, count: nat) -> int
    decreases count,
{
    if count == 0 {
        value
    } else {
        drop_hex_digits(value / 16, (count - 1) as nat)
    }
}

/// The hexadecimal digit of `value` at `place`, counted from the least
/// significant one.
pub open spec fn low_hex_digit(value: int, place: nat) -> int {
    drop_hex_digits(value, place) % 16
}

/// The hexadecimal digit of `value` at `position`, counted from the most
/// significant of its 32 digits.
pub open spec fn hex_digit_at(value: u128, position: int) -> int {
    low_hex_digit(value as int, (31 - position) as nat)
}

/// How many hyphens stand before index `index` of the hyphenated form.
pub open spec fn hyphens_before(index: int) -> int {
    if index < 8 {
        0
    } else if index < 13 {
        1
    } else if index < 18 {
        2
    } else if index < 23 {
        3
    } else {
        4
    }
}

/// The canonical text of a 128-bit identifier: 32 lower-case hexadecimal
/// digits, most significant first, in groups of 8-4-4-4-12 joined by hyphens.
pub open spec fn hyphenated(value: u128) -> Seq<char> {
    Seq::new(
        36,
        |index: int|
            if index == 8 || index == 13 || index == 18 || index == 23 {
                '-'
            } else {
                hex_digits()[hex_digit_at(value, index - hyphens_before(index))]
            },
    )
}

/// Whether the version digit is 4 and the variant bits are `10`, as in every
/// randomly generated identifier.
pub open spec fn is_random_version(value: u128) -> bool {
    hex_digit_at(value, 12) == 4 && 8 <= hex_digit_at(value, 16) < 12
}

/// Sixteen to the power of `exponent`.
pub open spec fn sixteen_to(exponent: nat) -> int
    decreases exponent,
{
    if exponent == 0 {
        1
    } else {
        16 * sixteen_to((exponent - 1) as nat)
    }
}

/// A number below sixteen to the power of `count` has no hexadecimal digit
/// left once its `count` lowest ones are dropped.
proof fn lemma_no_digit_left(value: int, count: nat)
    requires
        0 <= value < sixteen_to(count),
    ensures
        drop_hex_digits(value, count) == 0,
    decreases count,
{
    if count > 0 {
        lemma_no_digit_left(value / 16, (count - 1) as nat);
    }
}

/// Two numbers that agree in their `count` lowest hexadecimal digits and in
/// what is left above them are the same number.
proof fn lemma_digits_identify(first: int, second: int, count: nat)
    requires
        0 <= first,
        0 <= second,
        drop_hex_digits(first, count) == drop_hex_digits(second, count),
        forall|place: nat|
            place < count ==> #[trigger] low_hex_digit(first, place) == low_hex_digit(second, place),
    ensures
        first == second,
    decreases count,
{
    if count > 0 {
        assert forall|place: nat| place < count - 1 implies #[trigger] low_hex_digit(
            first / 16,
            place,
        ) == low_hex_digit(second / 16, place) by {
            assert(drop_hex_digits(first, place + 1) == drop_hex_digits(first / 16, place));
            assert(drop_hex_digits(second, place + 1) == drop_hex_digits(second / 16, place));
            assert(low_hex_digit(first, place + 1) == low_hex_digit(second, place + 1));
        }
        lemma_digits_identify(first / 16, second / 16, (count - 1) as nat);
        assert(low_hex_digit(first, 0) == low_hex_digit(second, 0));
    }
}

/// Where the hexadecimal digit at `position` stands in the hyphenated form.
pub open spec fn hyphenated_index(position: int) -> int {
    if position < 8 {
        position
    } else if position < 12 {
        position + 1
    } else if position < 16 {
        position + 2
    } else if position < 20 {
        position + 3
    } else {
        position + 4
    }
}

/// The canonical text tells the value: two identifiers with the same text
/// are the same identifier.
pub proof fn lemma_hyphenated_is_injective(first: u128, second: u128)
    requires
        hyphenated(first) == hyphenated(second),
    ensures
        first == second,
{
    let digits = hex_digits();
    assert(digits[0] == '0' && digits[1] == '1' && digits[2] == '2' && digits[3] == '3');
    assert(digits[4] == '4' && digits[5] == '5' && digits[6] == '6' && digits[7] == '7');
    assert(digits[8] == '8' && digits[9] == '9' && digits[10] == 'a' && digits[11] == 'b');
    assert(digits[12] == 'c' && digits[13] == 'd' && digits[14] == 'e' && digits[15] == 'f');
    assert forall|place: nat| place < 32 implies #[trigger] low_hex_digit(first as int, place)
        == low_hex_digit(second as int, place) by {
        let position = 31 - place;
        let index = hyphenated_index(position);
        assert(0 <= index < 36);
        assert(index != 8 && index != 13 && index != 18 && index != 23);
        assert(index - hyphens_before(index) == position);
        let left = hex_digit_at(first, position);
        let right = hex_digit_at(second, position);
        assert(0 <= left < 16 && 0 <= right < 16);
        assert(hyphenated(first)[index] == digits[left]);
        assert(hyphenated(second)[index] == digits[right]);
        assert(left == low_hex_digit(first as int, place));
        assert(right == low_hex_digit(second as int, place));
    }
    assert(sixteen_to(32) == 0x1_0000_0000_0000_0000_0000_0000_0000_0000) by {
        reveal_with_fuel(sixteen_to, 33);
    }
    lemma_no_digit_left(first as int, 32);
    lemma_no_digit_left(second as int, 32);
    lemma_digits_identify(first as int, second as int, 32);
}

/// What `uuid::Uuid::parse_str` makes of a text: the 128-bit value it reads,
/// or `None` where it rejects the text.
pub uninterp spec fn parsed_uuid(text: Seq<char>) -> Option<u128>;

/// Makes `uuid::Error` known as a type whose inside is not looked into.
#[verifier::external_type_specification]
#[verifier::external_body]
pub struct ExUuidError(uuid::Error);

/// Calls `uuid::Uuid::new_v4`, which draws 128 random bits and then forces the
/// version digit to 4 and the two variant bits to `10`. The contract claims
/// only those forced bits.
#[verifier::external_body]
fn random_uuid() -> (value: u128)
    ensures
        is_random_version(value),
{
    uuid::Uuid::new_v4().as_u128()
}

/// Calls the `Display` formatting of `uuid::Uuid`, which writes the
/// hyphenated lower-case form. The contract claims that form, and that
/// `parse_str` reads it back as the same value, as its documentation says of
/// every format this crate writes.
#[verifier::external_body]
fn uuid_text(value: u128) -> (text: String)
    ensures
        text@ == hyphenated(value),
        parsed_uuid(text@) == Some(value),
{
    uuid::Uuid::from_u128(value).to_string()
}

/// Calls `uuid::Uuid::parse_str`. The contract names the outcome
/// `parsed_uuid` of the text and claims nothing of which texts are accepted.
#[verifier::external_body]
fn parse_uuid(text: &str) -> (result: Result<u128, uuid::Error>)
    ensures
        result is Ok <==> parsed_uuid(text@) is Some,
        result matches Ok(value) ==> parsed_uuid(text@) == Some(value),
{
    uuid::Uuid::parse_str(text).map(|id| id.as_u128())
}

/// Identifier of a room: a 128-bit universally unique identifier.
#[derive(Clone, Copy, Debug, PartialEq, Eq, Structural, Hash)]
pub struct RoomId {
    value: u128,
}

/// The text given to [`RoomId::parse`] is not a universally unique identifier.
#[derive(Clone, Copy, Debug, PartialEq, Eq, Structural)]
pub struct InvalidRoomId;

impl RoomId {
    /// The 128-bit value of the identifier.
    pub closed spec fn value(self) -> u128 {
        self.value
    }

    /// The key under which the room is filed: its canonical text.
    pub open spec fn key(self) -> Seq<char> {
        hyphenated(self.value())
    }

    /// Two identifiers have the same key only if they are the same.
    pub proof fn lemma_key_identifies(self, other: Self)
        ensures
            self.key() == other.key() <==> self == other,
    {
        if self.key() == other.key() {
            lemma_hyphenated_is_injective(self.value, other.value);
        }
    }

    /// Draws a fresh random identifier.
    pub fn new() -> (result: Self)
        ensures
            is_random_version(result.value()),
    {
        RoomId { value: random_uuid() }
    }

    /// The identifier with exactly the given 128-bit value.
    pub fn from_u128(value: u128) -> (result: Self)
        ensures
            result.value() == value,
    {
        RoomId { value }
    }

    /// The 128-bit value of the identifier.
    pub fn as_u128(&self) -> (value: u128)
        ensures
            value == self.value(),
    {
        self.value
    }

    /// The canonical hyphenated text of the identifier.
    pub fn to_string(&self) -> (text: String)
        ensures
            text@ == self.key(),
            parsed_uuid(text@) == Some(self.value()),
    {
        uuid_text(self.value)
    }

    /// Reads an identifier from text, in any of the forms that
    /// `parsed_uuid` accepts.
    pub fn parse(text: &str) -> (result: Result<Self, InvalidRoomId>)
        ensures
            match result {
                Ok(id) => parsed_uuid(text@) == Some(id.value()),
                Err(_) => parsed_uuid(text@) is None,
            },
    {
        match parse_uuid(text) {
            Ok(value) => Ok(RoomId { value }),
            Err(_) => Err(InvalidRoomId),
        }
    }
}

impl Default for RoomId {
    fn default() -> (result: Self)
        ensures
            is_random_version(result.value()),
    {
        RoomId::new()
    }
}

impl std::str::FromStr for RoomId {
    type Err = InvalidRoomId;

    fn from_str(text: &str) -> (result: Result<Self, InvalidRoomId>)
        ensures
            match result {
                Ok(id) => parsed_uuid(text@) == Some(id.value()),
                Err(_) => parsed_uuid(text@) is None,
            },
    {
        RoomId::parse(text)
    }
}

/// Opaque label of the kind of room.
#[derive(Debug)]
pub struct RoomType(String);

impl View for RoomType {
    type V = Seq<char>;

    closed spec fn view(&self) -> Seq<char> {
        self.0@
    }
}

impl RoomType {
    /// Builds a label holding exactly the given text.
    pub fn new(label: &str) -> (result: Self)
        ensures
            result@ == label@,
    {
        RoomType(label.to_owned())
    }

    /// The label's text.
    pub fn as_str(&self) -> (text: &str)
        ensures
            text@ == self@,
    {
        self.0.as_str()
    }
}

impl Clone for RoomType {
    fn clone(&self) -> (result: Self)
        ensures
            result == *self,
    {
        RoomType(self.0.clone())
    }
}

/// What a room is, as plain values.
pub struct RoomView {
    pub id: RoomId,
    pub host_id: Seq<char>,
    pub room_type: Seq<char>,
}

/// A room: its identifier, the one principal allowed to host it, and its kind.
#[derive(Debug)]
pub struct Room {
    pub id: RoomId,
    pub host_id: UserId,
    pub room_type: RoomType,
}

impl View for Room {
    type V = RoomView;

    open spec fn view(&self) -> RoomView {
        RoomView { id: self.id, host_id: self.host_id@, room_type: self.room_type@ }
    }
}

impl Room {
    /// A room with a fresh random identifier.
    pub fn new(host_id: UserId, room_type: RoomType) -> (result: Self)
        ensures
            result.host_id == host_id,
            result.room_type == room_type,
            is_random_version(result.id.value()),
    {
        Room { id: RoomId::new(), host_id, room_type }
    }

    /// A room with the given identifier.
    pub fn with_id(id: RoomId, host_id: UserId, room_type: RoomType) -> (result: Self)
        ensures
            result.id == id,
            result.host_id == host_id,
            result.room_type == room_type,
    {
        Room { id, host_id, room_type }
    }

    /// Whether the given principal is this room's host.
    pub fn is_host(&self, user_id: &UserId) -> (result: bool)
        ensures
            result == (self.host_id@ == user_id@),
    {
        self.host_id == *user_id
    }
}

impl Clone for Room {
    fn clone(&self) -> (result: Self)
        ensures
            result == *self,
    {
        Room { id: self.id, host_id: self.host_id.clone(), room_type: self.room_type.clone() }
    }
}

} // verus!
