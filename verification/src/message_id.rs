//! Ids of the chat's gossip messages: a snowflake id drawn from a process-wide generator,
//! hashed, and written in decimal.
use vstd::prelude::*;
use vstd::arithmetic::power2::pow2;
use std::collections::hash_map::DefaultHasher;
use std::hash::Hasher;
use vstd::std_specs::hash::DefaultHasherAdditionalSpecFns;
use idgenerator::{IdGeneratorOptions, IdInstance, OptionError};
use libp2p::gossipsub::MessageId;

verus! {

#[verifier::external_type_specification]
#[verifier::external_body]
pub struct ExOptionError(idgenerator::OptionError);

#[verifier::external_type_specification]
#[verifier::external_body]
pub struct ExMessageId(libp2p::gossipsub::MessageId);

/// The worker id of this chat's generator.
pub const P2P_CHAT_WORKER_ID: u32 = 666;

/// The number of bits that the worker id takes in an id.
pub const WORKER_ID_BIT_LEN: u8 = 10;

/// The moment, in milliseconds since the Unix epoch, from which the generator counts time.
pub const BASE_TIME: i64 = 1680529680348;

/// The earliest base time that the generator accepts (1990-01-01, in milliseconds).
pub const EARLIEST_BASE_TIME: i64 = 631123200000;

/// The settings that this chat gives the process-wide generator; the generator keeps its
/// own values for the rest.
pub struct GeneratorOptions {
    pub worker_id: u32,
    pub worker_id_bit_len: u8,
    pub base_time: i64,
}

/// The options of the generator that do not depend on the clock or on the generator's
/// other settings: the base time is zero (the generator's default) or not before 1990, the
/// worker id takes between 1 and 20 bits, and the worker id fits in them.
pub open spec fn options_well_formed(options: GeneratorOptions) -> bool {
    &&& options.base_time == 0 || options.base_time >= EARLIEST_BASE_TIME
    &&& 1 <= options.worker_id_bit_len <= 20
    &&& options.worker_id < pow2(options.worker_id_bit_len as nat)
}

/// The options of this chat: worker id `P2P_CHAT_WORKER_ID` in `WORKER_ID_BIT_LEN` bits,
/// counting time from `BASE_TIME`.
pub fn chat_generator_options() -> (o: GeneratorOptions)
    ensures
        o == chat_generator_options_value(),
        options_well_formed(o),
{
    proof {
        vstd::arithmetic::power2::lemma2_to64();
    }
    GeneratorOptions {
        worker_id: P2P_CHAT_WORKER_ID,
        worker_id_bit_len: WORKER_ID_BIT_LEN,
        base_time: BASE_TIME,
    }
}

/// `IdInstance::set_options`, given `IdGeneratorOptions::new()` with the worker id, its bit
/// length and the base time of `options` set, on the process-wide generator.
/// The source checks, in order, that the base time is zero or lies between 1990 and the clock,
/// that the bit length is not zero and adds up with the generator's sequence bit length to at
/// most 22, and that the worker id fits the bit length; it keeps the options only when all
/// checks pass. The clock and the sequence bit length are not arguments, so the contract
/// states only that `Ok` implies the checks on the arguments; nothing that a caller can read
/// shows which options the generator holds.
/// The source adds the bit length to the sequence bit length (at most 21, as its own checks
/// keep it) in a `u8`; a bit length over 234 could overflow there, and `requires` leaves it
/// out. On the
/// generator's first use the source also sets up its defaults, which panics when the clock
/// reads before 2020-02-19; that depends on the clock, which no `requires` can speak of.
#[verifier::external_body]
fn set_generator_options(options: &GeneratorOptions) -> (r: Result<(), OptionError>)
    requires
        options.worker_id_bit_len <= 234,
    ensures
        r is Ok ==> options_well_formed(*options),
{
    IdInstance::set_options(
        IdGeneratorOptions::new().worker_id(options.worker_id).worker_id_bit_len(
            options.worker_id_bit_len,
        ).base_time(options.base_time),
    )
}

/// `IdInstance::next_id`: the next id of the process-wide generator. It depends on the clock
/// and on the ids handed out before, so nothing is stated of it. As for
/// `set_generator_options`, a first use with the clock before 2020-02-19 panics in the source.
#[verifier::external_body]
fn generator_next_id() -> i64 {
    IdInstance::next_id()
}

/// The eight bytes of `x`, least significant first (`u64::to_le_bytes`).
pub open spec fn le_bytes(x: u64) -> Seq<u8> {
    Seq::new(8, |i: int| ((x as int / pow2((8 * i) as nat) as int) % 256) as u8)
}

/// The bytes of an id in two's complement, in one of the two byte orders: least significant
/// first when `little_endian`, else most significant first.
pub open spec fn id_bytes(id: i64, little_endian: bool) -> Seq<u8> {
    if little_endian {
        le_bytes(id as u64)
    } else {
        le_bytes(id as u64).reverse()
    }
}

/// `<i64 as Hash>::hash` into a `DefaultHasher`: one write of the id's eight bytes in the
/// machine's byte order (`write_i64`, then `write` of `to_ne_bytes`). Which of the two byte
/// orders that is depends on the machine, so the contract allows both.
#[verifier::external_body]
fn hash_id_into(id: i64, hasher: &mut DefaultHasher)
    ensures
        final(hasher)@ == old(hasher)@.push(id_bytes(id, true)) || final(hasher)@ == old(
            hasher,
        )@.push(id_bytes(id, false)),
{
    std::hash::Hash::hash(&id, hasher)
}

/// The bytes that a gossip message id holds (`MessageId` wraps a byte vector, its one field).
pub uninterp spec fn message_id_bytes_held(id: MessageId) -> Seq<u8>;

/// `MessageId::from` on bytes: the id that holds exactly these bytes.
#[verifier::external_body]
fn message_id_from_bytes(bytes: Vec<u8>) -> (r: MessageId)
    ensures
        message_id_bytes_held(r) == bytes@,
{
    MessageId::from(bytes)
}

/// The generator of message ids that all of the process shares.
pub struct MessageIdGenerator;

impl MessageIdGenerator {
    /// Sets up the process-wide generator with the options of `chat_generator_options`. It
    /// fails when the generator refuses them: with these options, only a clock set before the
    /// base time makes it refuse.
    pub fn init() -> (r: Result<(), OptionError>)
        ensures
            r is Ok ==> options_well_formed(chat_generator_options_value()),
    {
        let options = chat_generator_options();
        set_generator_options(&options)
    }

    /// The next id of the process-wide generator.
    pub fn next_id() -> i64 {
        generator_next_id()
    }
}

/// The options of this chat, as `chat_generator_options` builds them.
pub open spec fn chat_generator_options_value() -> GeneratorOptions {
    GeneratorOptions {
        worker_id: P2P_CHAT_WORKER_ID,
        worker_id_bit_len: WORKER_ID_BIT_LEN,
        base_time: BASE_TIME,
    }
}

/// The ASCII digits of `n` in decimal, without leading zeros.
pub open spec fn decimal_digits(n: nat) -> Seq<u8>
    decreases n,
{
    if n < 10 {
        seq![(48 + n) as u8]
    } else {
        decimal_digits(n / 10).push((48 + n % 10) as u8)
    }
}

/// The number that a string of ASCII decimal digits stands for.
pub open spec fn decimal_value(d: Seq<u8>) -> nat
    decreases d.len(),
{
    if d.len() == 0 {
        0
    } else {
        10 * decimal_value(d.drop_last()) + (d.last() - 48) as nat
    }
}

/// Whether `d` is a decimal numeral as `u64::to_string` writes one: ASCII digits, at least
/// one, and no leading zero unless the numeral is "0".
pub open spec fn is_decimal_numeral(d: Seq<u8>) -> bool {
    &&& d.len() > 0
    &&& forall|i: int| 0 <= i < d.len() ==> 48 <= #[trigger] d[i] <= 57
    &&& d[0] == 48 ==> d.len() == 1
}

/// The decimal digits of `n`, in ASCII.
pub fn decimal_bytes(n: u64) -> (r: Vec<u8>)
    ensures
        r@ == decimal_digits(n as nat),
    decreases n,
{
    if n < 10 {
        let mut v: Vec<u8> = Vec::new();
        v.push((48 + n) as u8);
        v
    } else {
        let mut v = decimal_bytes(n / 10);
        v.push((48 + n % 10) as u8);
        v
    }
}

/// Writing a number in decimal gives a numeral, and reading that numeral gives the number
/// back: distinct numbers never share a numeral.
pub proof fn lemma_decimal_round_trip(n: nat)
    ensures
        is_decimal_numeral(decimal_digits(n)),
        decimal_value(decimal_digits(n)) == n,
    decreases n,
{
    if n >= 10 {
        let q = n / 10;
        let r = n % 10;
        lemma_decimal_round_trip(q);
        let p = decimal_digits(q);
        let d = decimal_digits(n);
        assert(n == 10 * q + r);
        assert(d == p.push((48 + r) as u8));
        assert(d.drop_last() =~= p);
        assert(d.last() == (48 + r) as u8);
        assert(((48 + r) as u8) as int == 48 + r);
        assert(decimal_value(d) == 10 * decimal_value(p) + r);
        assert(d[0] == p[0]);
        assert forall|i: int| 0 <= i < d.len() implies 48 <= #[trigger] d[i] <= 57 by {
            if i < d.len() - 1 {
                assert(d[i] == p[i]);
            }
        }
        if p[0] == 48 {
            assert(p.len() == 1);
            assert(p.drop_last() =~= Seq::<u8>::empty());
            assert(decimal_value(p.drop_last()) == 0);
            assert(decimal_value(p) == 0);
        }
    } else {
        let d = decimal_digits(n);
        assert(d.drop_last() =~= Seq::<u8>::empty());
        assert(decimal_value(d.drop_last()) == 0);
        assert(((48 + n) as u8) as int == 48 + n);
    }
}

/// Ten to the power `k`.
pub open spec fn ten_pow(k: nat) -> nat
    decreases k,
{
    if k == 0 {
        1
    } else {
        10 * ten_pow((k - 1) as nat)
    }
}

/// A number below ten to the power `k`, for `k` at least one, has at most `k` decimal digits.
pub proof fn lemma_decimal_length(n: nat, k: nat)
    requires
        1 <= k,
        n < ten_pow(k),
    ensures
        decimal_digits(n).len() <= k,
    decreases k,
{
    if n >= 10 {
        assert(k >= 2) by {
            if k == 1 {
                assert(ten_pow(1) == 10 * ten_pow(0));
            }
        }
        assert(n / 10 < ten_pow((k - 1) as nat));
        lemma_decimal_length(n / 10, (k - 1) as nat);
    }
}

/// A 64-bit number has at most twenty decimal digits.
pub proof fn lemma_u64_decimal_length(n: u64)
    ensures
        decimal_digits(n as nat).len() <= 20,
{
    reveal_with_fuel(ten_pow, 21);
    assert(ten_pow(20) == 100000000000000000000nat);
    lemma_decimal_length(n as nat, 20);
}

/// Two numbers with the same decimal numeral are equal.
pub proof fn lemma_decimal_injective(a: nat, b: nat)
    requires
        decimal_digits(a) == decimal_digits(b),
    ensures
        a == b,
{
    lemma_decimal_round_trip(a);
    lemma_decimal_round_trip(b);
}

/// The bytes of the message id that belongs to a hash: the hash written in decimal, a
/// numeral of at most twenty digits.
pub fn message_id_bytes(hash: u64) -> (r: Vec<u8>)
    ensures
        r@ == decimal_digits(hash as nat),
        is_decimal_numeral(r@),
        r@.len() <= 20,
{
    proof {
        lemma_decimal_round_trip(hash as nat);
        lemma_u64_decimal_length(hash);
    }
    decimal_bytes(hash)
}

/// Byte `i` of `x`, least significant first, is `x` divided by `p`, two to the power `8 * i`,
/// modulo 256.
proof fn lemma_le_byte(x: u64, i: int, p: int)
    requires
        0 <= i < 8,
        p == pow2((8 * i) as nat),
    ensures
        le_bytes(x)[i] as int == (x as int / p) % 256,
{
    let b = (x as int / p) % 256;
    assert(le_bytes(x)[i] == b as u8);
    assert(0 <= b < 256) by {
        vstd::arithmetic::power2::lemma_pow2_pos((8 * i) as nat);
    }
}

/// A 64-bit number is determined by its eight bytes.
proof fn lemma_le_bytes_injective(x: u64, y: u64)
    requires
        le_bytes(x) == le_bytes(y),
    ensures
        x == y,
{
    vstd::arithmetic::power2::lemma2_to64();
    vstd::arithmetic::power2::lemma2_to64_rest();
    lemma_le_byte(x, 0, 1);
    lemma_le_byte(y, 0, 1);
    assert(le_bytes(x)[0] == le_bytes(y)[0]);
    lemma_le_byte(x, 1, 0x100);
    lemma_le_byte(y, 1, 0x100);
    assert(le_bytes(x)[1] == le_bytes(y)[1]);
    lemma_le_byte(x, 2, 0x10000);
    lemma_le_byte(y, 2, 0x10000);
    assert(le_bytes(x)[2] == le_bytes(y)[2]);
    lemma_le_byte(x, 3, 0x1000000);
    lemma_le_byte(y, 3, 0x1000000);
    assert(le_bytes(x)[3] == le_bytes(y)[3]);
    lemma_le_byte(x, 4, 0x100000000);
    lemma_le_byte(y, 4, 0x100000000);
    assert(le_bytes(x)[4] == le_bytes(y)[4]);
    lemma_le_byte(x, 5, 0x10000000000);
    lemma_le_byte(y, 5, 0x10000000000);
    assert(le_bytes(x)[5] == le_bytes(y)[5]);
    lemma_le_byte(x, 6, 0x1000000000000);
    lemma_le_byte(y, 6, 0x1000000000000);
    assert(le_bytes(x)[6] == le_bytes(y)[6]);
    lemma_le_byte(x, 7, 0x100000000000000);
    lemma_le_byte(y, 7, 0x100000000000000);
    assert(le_bytes(x)[7] == le_bytes(y)[7]);
    assert(x == y) by (bit_vector)
        requires
            x % 256 == y % 256,
            (x / 0x100) % 256 == (y / 0x100) % 256,
            (x / 0x10000) % 256 == (y / 0x10000) % 256,
            (x / 0x1000000) % 256 == (y / 0x1000000) % 256,
            (x / 0x100000000) % 256 == (y / 0x100000000) % 256,
            (x / 0x10000000000) % 256 == (y / 0x10000000000) % 256,
            (x / 0x1000000000000) % 256 == (y / 0x1000000000000) % 256,
            (x / 0x100000000000000) % 256 == (y / 0x100000000000000) % 256,
    ;
}

/// Different generator ids are hashed from different bytes: in either byte order, the eight
/// bytes that enter the hash determine the id.
pub proof fn lemma_id_bytes_injective(a: i64, b: i64, little_endian: bool)
    requires
        id_bytes(a, little_endian) == id_bytes(b, little_endian),
    ensures
        a == b,
{
    if !little_endian {
        let ra = le_bytes(a as u64);
        let rb = le_bytes(b as u64);
        assert(ra.reverse() == rb.reverse());
        assert forall|i: int| 0 <= i < 8 implies ra[i] == rb[i] by {
            assert(ra.reverse()[7 - i] == rb.reverse()[7 - i]);
        }
        assert(ra =~= rb);
    }
    lemma_le_bytes_injective(a as u64, b as u64);
    assert(a == b) by (bit_vector)
        requires
            a as u64 == b as u64,
    ;
}

/// Whether `h` is what a `DefaultHasher` fed `id` alone finishes with, the id's bytes taken in
/// one of the two byte orders.
pub open spec fn is_hash_of_id(id: i64, h: u64) -> bool {
    h == DefaultHasher::spec_finish(seq![id_bytes(id, true)]) || h == DefaultHasher::spec_finish(
        seq![id_bytes(id, false)],
    )
}

/// The hash under which an id enters a message id: a `DefaultHasher` fed the id alone.
pub fn hash_of_id(id: i64) -> (r: u64)
    ensures
        is_hash_of_id(id, r),
{
    let mut hasher = DefaultHasher::new();
    hash_id_into(id, &mut hasher);
    let r = hasher.finish();
    assert(seq![id_bytes(id, true)] =~= Seq::<Seq<u8>>::empty().push(id_bytes(id, true)));
    assert(seq![id_bytes(id, false)] =~= Seq::<Seq<u8>>::empty().push(id_bytes(id, false)));
    r
}

/// Whether `bytes` are a message id of this chat: some generator id, hashed by a
/// `DefaultHasher` fed that id alone, written in decimal.
pub open spec fn is_generator_message_id(bytes: Seq<u8>) -> bool {
    exists|id: i64, h: u64| is_hash_of_id(id, h) && bytes == decimal_digits(h as nat)
}

/// A message id of this chat is a decimal numeral of at most twenty digits.
pub proof fn lemma_generator_message_id_shape(bytes: Seq<u8>)
    requires
        is_generator_message_id(bytes),
    ensures
        is_decimal_numeral(bytes),
        bytes.len() <= 20,
{
    let (id, h) = choose|id: i64, h: u64| is_hash_of_id(id, h) && bytes == decimal_digits(h as nat);
    lemma_decimal_round_trip(h as nat);
    lemma_u64_decimal_length(h);
}

/// The bytes of the id of the next message: the next generator id, hashed, in decimal.
pub fn next_message_id_bytes() -> (r: Vec<u8>)
    ensures
        is_generator_message_id(r@),
        is_decimal_numeral(r@),
        r@.len() <= 20,
{
    let id = MessageIdGenerator::next_id();
    let hash = hash_of_id(id);
    let r = message_id_bytes(hash);
    assert(is_hash_of_id(id, hash) && r@ == decimal_digits(hash as nat));
    r
}

/// The id of the next gossip message that this node publishes: it holds the next generator
/// id, hashed, in decimal.
pub fn next_message_id() -> (r: MessageId)
    ensures
        is_generator_message_id(message_id_bytes_held(r)),
        is_decimal_numeral(message_id_bytes_held(r)),
        message_id_bytes_held(r).len() <= 20,
{
    let bytes = next_message_id_bytes();
    let ghost held = bytes@;
    let r = message_id_from_bytes(bytes);
    assert(message_id_bytes_held(r) == held);
    r
}

} // verus!
