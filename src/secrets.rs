use zeroize::Zeroize;
use vstd::prelude::*;
use crate::crypto::random_bytes;
use crate::error::VaultError;
use crate::models::Vault;
use crate::text::push_char;

verus! {

/// Relies on zeroize's `Zeroize` for `String`: the bytes are overwritten
/// with zeros and the string is left empty.
#[verifier::external_body]
fn wipe(s: &mut String)
    ensures
        final(s)@ == Seq::<char>::empty(),
{
    s.zeroize()
}

/// Relies on zeroize's `Zeroize` for byte arrays: every byte of the key
/// is overwritten with zero.
#[verifier::external_body]
pub(crate) fn wipe_key(k: &mut [u8; 32])
    ensures
        final(k)@ == Seq::new(32, |i: int| 0u8),
{
    k.zeroize()
}

/// Relies on zeroize's `Zeroize` for `Vec<u8>`: the bytes (and spare
/// capacity) are overwritten with zeros and the vector is left empty.
#[verifier::external_body]
pub(crate) fn wipe_bytes(v: &mut Vec<u8>)
    ensures
        final(v)@ == Seq::<u8>::empty(),
{
    v.zeroize()
}

/// Relies on std's `Vec::shrink_to_fit`: releases spare capacity and keeps
/// the elements.
#[verifier::external_body]
fn release_capacity<T>(v: &mut Vec<T>)
    ensures
        final(v)@ == old(v)@,
{
    v.shrink_to_fit()
}

/// Wipes the secrets of a session: every field of every entry and note
/// (identifier, name, email, password, username, notes; identifier, title,
/// content) is overwritten before it is dropped, and the passphrase is
/// overwritten. The revision stays.
pub fn zeroize_sensitive(vault: &mut Vault, master_password: &mut String)
    ensures
        final(vault).entries@.len() == 0,
        final(vault).notes@.len() == 0,
        final(vault).revision == old(vault).revision,
        final(master_password)@ == Seq::<char>::empty(),
{
    while vault.entries.len() > 0
        invariant
            vault.revision == old(vault).revision,
            vault.notes@.len() == old(vault).notes@.len(),
        decreases vault.entries@.len(),
    {
        match vault.entries.pop() {
            Some(mut entry) => {
                wipe(&mut entry.id);
                wipe(&mut entry.name);
                wipe(&mut entry.email);
                wipe(&mut entry.password);
                match entry.username {
                    Some(mut u) => wipe(&mut u),
                    None => {},
                }
                match entry.notes {
                    Some(mut n) => wipe(&mut n),
                    None => {},
                }
            },
            None => {},
        }
    }
    while vault.notes.len() > 0
        invariant
            vault.revision == old(vault).revision,
            vault.entries@.len() == 0,
        decreases vault.notes@.len(),
    {
        match vault.notes.pop() {
            Some(mut note) => {
                wipe(&mut note.id);
                wipe(&mut note.title);
                wipe(&mut note.content);
            },
            None => {},
        }
    }
    release_capacity(&mut vault.entries);
    release_capacity(&mut vault.notes);
    wipe(master_password);
}

pub open spec fn hex_chars() -> Seq<char> {
    seq!['0', '1', '2', '3', '4', '5', '6', '7', '8', '9', 'a', 'b', 'c', 'd', 'e', 'f']
}

/// The byte of an identifier at position `i`, with the version-4 and
/// variant bits set.
pub open spec fn uuid_byte(b: Seq<u8>, i: int) -> u8 {
    if i == 6 {
        (b[6] & 0x0F) | 0x40
    } else if i == 8 {
        (b[8] & 0x3F) | 0x80
    } else {
        b[i]
    }
}

pub open spec fn hex_pair(x: u8) -> Seq<char> {
    seq![hex_chars()[(x / 16) as int], hex_chars()[(x % 16) as int]]
}

pub open spec fn uuid_group_break(i: int) -> bool {
    i == 4 || i == 6 || i == 8 || i == 10
}

/// The text of the first `n` bytes of an identifier: two lower-case hex
/// digits per byte, with a dash before bytes 4, 6, 8 and 10.
pub open spec fn uuid_prefix(b: Seq<u8>, n: nat) -> Seq<char>
    decreases n,
{
    if n == 0 {
        seq![]
    } else {
        let i = n - 1;
        let before = uuid_prefix(b, (n - 1) as nat);
        let sep: Seq<char> = if uuid_group_break(i) { seq!['-'] } else { seq![] };
        before + sep + hex_pair(uuid_byte(b, i))
    }
}

/// The canonical text of a random (version 4) identifier.
pub fn uuid_from_bytes(bytes: &[u8]) -> (r: String)
    requires
        bytes@.len() == 16,
    ensures
        r@ == uuid_prefix(bytes@, 16),
{
    let hex = vec!['0', '1', '2', '3', '4', '5', '6', '7', '8', '9', 'a', 'b', 'c', 'd', 'e', 'f'];
    assert(hex@ == hex_chars());
    let mut out = String::new();
    let mut i: usize = 0;
    while i < 16
        invariant
            bytes@.len() == 16,
            hex@ == hex_chars(),
            i <= 16,
            out@ == uuid_prefix(bytes@, i as nat),
        decreases 16 - i,
    {
        let b: u8 = if i == 6 {
            (bytes[6] & 0x0F) | 0x40
        } else if i == 8 {
            (bytes[8] & 0x3F) | 0x80
        } else {
            bytes[i]
        };
        assert(b == uuid_byte(bytes@, i as int));
        let ghost before = out@;
        if i == 4 || i == 6 || i == 8 || i == 10 {
            push_char(&mut out, '-');
        }
        push_char(&mut out, hex[(b / 16) as usize]);
        push_char(&mut out, hex[(b % 16) as usize]);
        proof {
            let sep: Seq<char> = if uuid_group_break(i as int) { seq!['-'] } else { seq![] };
            assert(out@ =~= before + sep + hex_pair(b));
        }
        i += 1;
    }
    out
}

/// A fresh random identifier for an entry or a note.
pub fn new_uuid() -> (r: Result<String, VaultError>)
    ensures
        r matches Ok(s) ==> exists|b: Seq<u8>| b.len() == 16 && s@ == #[trigger] uuid_prefix(b, 16),
        r matches Err(e) ==> e == VaultError::RandomSource,
{
    let bytes = random_bytes(16)?;
    Ok(uuid_from_bytes(bytes.as_slice()))
}

} // verus!
