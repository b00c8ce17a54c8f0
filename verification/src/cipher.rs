//! Key derivation and the keyed stream cipher used to authenticate a session.

use vstd::prelude::*;

verus! {

/// Low byte of a 16-bit product identifier.
pub open spec fn low_byte(product_id: u16) -> u8 {
    (product_id % 256) as u8
}

/// High byte of a 16-bit product identifier.
pub open spec fn high_byte(product_id: u16) -> u8 {
    (product_id / 256) as u8
}

/// The first session key: a fixed shuffle of the hardware address with the
/// low byte of the product identifier.
pub open spec fn spec_mix_a(mac: Seq<u8>, product_id: u16) -> Seq<u8> {
    seq![
        mac[0],
        mac[2],
        mac[5],
        low_byte(product_id),
        low_byte(product_id),
        mac[4],
        mac[5],
        mac[1],
    ]
}

/// The second session key: a fixed shuffle of the hardware address with both
/// bytes of the product identifier.
pub open spec fn spec_mix_b(mac: Seq<u8>, product_id: u16) -> Seq<u8> {
    seq![
        mac[0],
        mac[2],
        mac[5],
        high_byte(product_id),
        mac[4],
        mac[0],
        mac[5],
        low_byte(product_id),
    ]
}

/// Derives the first session key from a device's address and product id.
pub fn mix_a(mac: [u8; 6], product_id: u16) -> (key: [u8; 8])
    ensures
        key@ == spec_mix_a(mac@, product_id),
{
    let low: u8 = (product_id & 0xFF) as u8;
    assert(low == low_byte(product_id)) by (bit_vector)
        requires
            low == (product_id & 0xFF) as u8,
    ;
    let key: [u8; 8] = [mac[0], mac[2], mac[5], low, low, mac[4], mac[5], mac[1]];
    assert(key@ =~= spec_mix_a(mac@, product_id));
    key
}

/// Derives the second session key from a device's address and product id.
pub fn mix_b(mac: [u8; 6], product_id: u16) -> (key: [u8; 8])
    ensures
        key@ == spec_mix_b(mac@, product_id),
{
    let high: u8 = (product_id >> 8 & 255) as u8;
    let low: u8 = (product_id & 255) as u8;
    assert(high == high_byte(product_id) && low == low_byte(product_id)) by (bit_vector)
        requires
            high == (product_id >> 8 & 255) as u8,
            low == (product_id & 255) as u8,
    ;
    let key: [u8; 8] = [mac[0], mac[2], mac[5], high, mac[4], mac[0], mac[5], low];
    assert(key@ =~= spec_mix_b(mac@, product_id));
    key
}

/// Number of entries in the cipher's permutation table.
pub const KEY_SIZE: usize = 256;

/// Exchanges the entries at positions `i` and `j`.
pub open spec fn swap_entries(perm: Seq<u8>, i: int, j: int) -> Seq<u8> {
    perm.update(i, perm[j]).update(j, perm[i])
}

/// The table that maps every byte to itself.
pub open spec fn identity_permutation() -> Seq<u8> {
    Seq::new(256, |i: int| i as u8)
}

/// Every byte value occurs exactly once among the 256 entries.
pub open spec fn is_permutation(perm: Seq<u8>) -> bool {
    &&& perm.len() == 256
    &&& forall|i: int, j: int| 0 <= i < j < 256 ==> perm[i] != perm[j]
}

/// The table and the running index after the first `rounds` rounds of the
/// key schedule. Round `i` adds entry `i` and key byte `i mod key.len()` to
/// the running index, modulo 256, and exchanges entry `i` with the entry at
/// the running index.
pub open spec fn key_schedule(key: Seq<u8>, rounds: nat) -> (Seq<u8>, u8)
    decreases rounds,
{
    if rounds == 0 {
        (identity_permutation(), 0u8)
    } else {
        let (perm, j) = key_schedule(key, (rounds - 1) as nat);
        let i = rounds - 1;
        let next = ((j + perm[i] + key[i % (key.len() as int)]) % 256) as u8;
        (swap_entries(perm, i, next as int), next)
    }
}

/// The permutation table that a key selects.
pub open spec fn spec_cipher_init(key: Seq<u8>) -> Seq<u8> {
    key_schedule(key, 256).0
}

/// The table and the two cursors after `count` bytes have been produced,
/// starting from `perm` with both cursors at zero. Each byte advances the
/// first cursor by one, adds the entry under it to the second cursor, both
/// modulo 256, and exchanges the two entries under the cursors.
pub open spec fn keystream_state(perm: Seq<u8>, count: nat) -> (Seq<u8>, u8, u8)
    decreases count,
{
    if count == 0 {
        (perm, 0u8, 0u8)
    } else {
        let (table, index1, index2) = keystream_state(perm, (count - 1) as nat);
        let next1 = ((index1 + 1) % 256) as u8;
        let next2 = ((index2 + table[next1 as int]) % 256) as u8;
        (swap_entries(table, next1 as int, next2 as int), next1, next2)
    }
}

/// The keystream byte at position `k`: the entry selected by the sum, modulo
/// 256, of the two entries under the cursors after `k + 1` steps.
pub open spec fn keystream_byte(perm: Seq<u8>, k: nat) -> u8 {
    let (table, index1, index2) = keystream_state(perm, k + 1);
    table[(table[index1 as int] + table[index2 as int]) % 256]
}

/// The input with each byte combined by exclusive-or with the keystream byte
/// at the same position.
pub open spec fn spec_cipher_crypt(input: Seq<u8>, perm: Seq<u8>) -> Seq<u8> {
    Seq::new(input.len(), |k: int| input[k] ^ keystream_byte(perm, k as nat))
}

/// Encryption, and equally decryption, of `input` under `key`.
pub open spec fn spec_cipher(key: Seq<u8>, input: Seq<u8>) -> Seq<u8> {
    spec_cipher_crypt(input, spec_cipher_init(key))
}

/// Exchanging two entries of a permutation leaves a permutation.
pub proof fn lemma_swap_is_permutation(perm: Seq<u8>, i: int, j: int)
    requires
        is_permutation(perm),
        0 <= i < 256,
        0 <= j < 256,
    ensures
        is_permutation(swap_entries(perm, i, j)),
{
}

/// The key schedule keeps 256 entries and never repeats a byte value, at
/// every round.
pub proof fn lemma_key_schedule_is_permutation(key: Seq<u8>, rounds: nat)
    requires
        rounds <= 256,
    ensures
        is_permutation(key_schedule(key, rounds).0),
    decreases rounds,
{
    if rounds > 0 {
        lemma_key_schedule_is_permutation(key, (rounds - 1) as nat);
        let (perm, j) = key_schedule(key, (rounds - 1) as nat);
        let i = rounds - 1;
        let next = ((j + perm[i] + key[i % (key.len() as int)]) % 256) as u8;
        lemma_swap_is_permutation(perm, i, next as int);
    }
}

/// Combining a byte twice with the same keystream byte restores it.
pub proof fn lemma_xor_twice(byte: u8, mask: u8)
    ensures
        (byte ^ mask) ^ mask == byte,
{
    assert((byte ^ mask) ^ mask == byte) by (bit_vector);
}

/// The cipher is its own inverse: running the keystream of one table over
/// its own output gives the input back.
pub proof fn lemma_crypt_self_inverse(data: Seq<u8>, perm: Seq<u8>)
    ensures
        spec_cipher_crypt(spec_cipher_crypt(data, perm), perm) == data,
{
    let once = spec_cipher_crypt(data, perm);
    let twice = spec_cipher_crypt(once, perm);
    assert forall|k: int| 0 <= k < data.len() implies twice[k] == data[k] by {
        lemma_xor_twice(data[k], keystream_byte(perm, k as nat));
    }
    assert(twice =~= data);
}

/// For every non-empty key, encrypting twice under that key gives the input
/// back.
pub proof fn lemma_cipher_self_inverse(key: Seq<u8>, data: Seq<u8>)
    requires
        key.len() > 0,
    ensures
        spec_cipher(key, spec_cipher(key, data)) == data,
{
    lemma_crypt_self_inverse(data, spec_cipher_init(key));
}

/// Under one table, two inputs with the same output are the same input.
pub proof fn lemma_crypt_injective(a: Seq<u8>, b: Seq<u8>, perm: Seq<u8>)
    requires
        spec_cipher_crypt(a, perm) == spec_cipher_crypt(b, perm),
    ensures
        a == b,
{
    lemma_crypt_self_inverse(a, perm);
    lemma_crypt_self_inverse(b, perm);
}

/// Builds the permutation table that `key` selects.
pub fn cipher_init(key: &[u8]) -> (perm: [u8; KEY_SIZE])
    requires
        key@.len() > 0,
    ensures
        perm@ == spec_cipher_init(key@),
        is_permutation(perm@),
{
    let mut perm = [0u8; KEY_SIZE];
    let mut i: usize = 0;
    while i < KEY_SIZE
        invariant
            i <= KEY_SIZE,
            forall|k: int| 0 <= k < i ==> perm@[k] == k as u8,
        decreases KEY_SIZE - i,
    {
        perm[i] = i as u8;
        i += 1;
    }
    assert(perm@ =~= identity_permutation());

    let mut j: u8 = 0;
    let mut ia: usize = 0;
    while ia < KEY_SIZE
        invariant
            ia <= KEY_SIZE,
            key@.len() > 0,
            (perm@, j) == key_schedule(key@, ia as nat),
        decreases KEY_SIZE - ia,
    {
        j = j.wrapping_add(perm[ia]).wrapping_add(key[ia % key.len()]);
        let held = perm[ia];
        perm[ia] = perm[j as usize];
        perm[j as usize] = held;
        ia += 1;
    }
    proof {
        lemma_key_schedule_is_permutation(key@, 256);
    }
    perm
}

/// Combines `input` with the keystream that starts from `perm`.
pub fn cipher_crypt(input: &[u8], perm: [u8; KEY_SIZE]) -> (output: Vec<u8>)
    ensures
        output@ == spec_cipher_crypt(input@, perm@),
{
    let mut table = perm;
    let mut output: Vec<u8> = Vec::with_capacity(input.len());
    let mut index1: u8 = 0;
    let mut index2: u8 = 0;

    let mut i: usize = 0;
    while i < input.len()
        invariant
            i <= input@.len(),
            output@.len() == i,
            (table@, index1, index2) == keystream_state(perm@, i as nat),
            forall|k: int| 0 <= k < i ==> output@[k] == input@[k] ^ keystream_byte(perm@, k as nat),
        decreases input@.len() - i,
    {
        index1 = index1.wrapping_add(1);
        index2 = index2.wrapping_add(table[index1 as usize]);
        let held = table[index1 as usize];
        table[index1 as usize] = table[index2 as usize];
        table[index2 as usize] = held;
        let index = table[index1 as usize].wrapping_add(table[index2 as usize]);
        output.push(input[i] ^ table[index as usize]);
        i += 1;
    }
    assert(output@ =~= spec_cipher_crypt(input@, perm@));
    output
}

/// Encrypts, and equally decrypts, `input` under `key`.
pub fn cipher(key: &[u8], input: &[u8]) -> (output: Vec<u8>)
    requires
        key@.len() > 0,
    ensures
        output@ == spec_cipher(key@, input@),
{
    cipher_crypt(input, cipher_init(key))
}

/// Encrypts, and equally decrypts, `input` under `key`, and rejects the
/// empty key, which selects no table.
pub fn try_cipher(key: &[u8], input: &[u8]) -> (output: Option<Vec<u8>>)
    ensures
        output is None <==> key@.len() == 0,
        output matches Some(bytes) ==> bytes@ == spec_cipher(key@, input@),
{
    if key.len() == 0 {
        None
    } else {
        Some(cipher(key, input))
    }
}

} // verus!
