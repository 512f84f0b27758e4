//! Text renderings of numbers, bytes and authority lists used in
//! descriptions of messages and errors.

use vstd::prelude::*;
use vstd::string::*;
use sp_core::crypto::Ss58Codec;
use crate::gossip::AuthorityId;

verus! {

/// The decimal digit character for `d`.
pub open spec fn digit_char(d: nat) -> char {
    if d == 0 { '0' } else if d == 1 { '1' } else if d == 2 { '2' } else if d == 3 { '3' }
    else if d == 4 { '4' } else if d == 5 { '5' } else if d == 6 { '6' } else if d == 7 { '7' }
    else if d == 8 { '8' } else { '9' }
}

/// The decimal notation of `x`, without leading zeros.
pub open spec fn decimal(x: nat) -> Seq<char>
    decreases x,
{
    if x < 10 {
        seq![digit_char(x)]
    } else {
        decimal(x / 10) + seq![digit_char(x % 10)]
    }
}

/// The lowercase hexadecimal digit character for `d`.
pub open spec fn hex_char(d: nat) -> char {
    if d < 10 {
        digit_char(d)
    } else if d == 10 { 'a' } else if d == 11 { 'b' } else if d == 12 { 'c' }
    else if d == 13 { 'd' } else if d == 14 { 'e' } else { 'f' }
}

/// Two lowercase hexadecimal digits per byte, in order.
pub open spec fn lower_hex(bytes: Seq<u8>) -> Seq<char>
    decreases bytes.len(),
{
    if bytes.len() == 0 {
        Seq::empty()
    } else {
        lower_hex(bytes.drop_last()) + seq![
            hex_char(bytes.last() as nat / 16),
            hex_char(bytes.last() as nat % 16),
        ]
    }
}

/// The first eight characters of an SS58 address (all of it, were it
/// shorter).
pub open spec fn ss58_head(ss58: Seq<char>) -> Seq<char> {
    if ss58.len() < 8 {
        ss58
    } else {
        ss58.take(8)
    }
}

/// The SS58 address of an ECDSA public key in the given address format.
pub uninterp spec fn ss58_of(key: Seq<u8>, format: u16) -> Seq<char>;

/// The debug form of an authority key, with its SS58 address in `format`:
/// the key in hex and the head of its address, inside `Public(..)`.
pub open spec fn authority_debug(id: AuthorityId, format: u16) -> Seq<char> {
    "Public("@ + lower_hex(id.0@) + " ("@ + ss58_head(ss58_of(id.0@, format)) + "...))"@
}

/// The debug forms of a list of authorities, separated by `", "`.
pub open spec fn authority_items(ids: Seq<AuthorityId>, format: u16) -> Seq<char>
    decreases ids.len(),
{
    if ids.len() == 0 {
        Seq::empty()
    } else if ids.len() == 1 {
        authority_debug(ids[0], format)
    } else {
        authority_items(ids.drop_last(), format) + ", "@ + authority_debug(ids.last(), format)
    }
}

/// A list of authorities as a bracketed, comma separated list of their debug
/// forms.
pub open spec fn authority_list(ids: Seq<AuthorityId>, format: u16) -> Seq<char> {
    "["@ + authority_items(ids, format) + "]"@
}

/// sp-core's `Ss58Codec::to_ss58check_with_version` on the ECDSA public key
/// with the given bytes, in the address format with the given number: a
/// function of the key and the format alone.
#[verifier::external_body]
fn ss58_address(key: &[u8; 33], format: u16) -> (r: String)
    ensures
        r@ == ss58_of(key@, format),
{
    sp_core::ecdsa::Public::from_raw(*key).to_ss58check_with_version(
        sp_core::crypto::Ss58AddressFormat::from(format),
    )
}

/// sp-core's `default_ss58_version`, as its number: the address format that
/// the process uses by default. The process may change it at any time, so
/// nothing is stated of it.
#[verifier::external_body]
pub(crate) fn default_ss58_format() -> (r: u16) {
    u16::from(sp_core::crypto::default_ss58_version())
}

/// `ToString::to_string` on a `u64`: its decimal notation.
#[verifier::external_body]
pub(crate) fn u64_to_decimal(x: u64) -> (r: String)
    ensures
        r@ == decimal(x as nat),
{
    x.to_string()
}

/// sp-core's `HexDisplay` of a byte slice shorter than 1027 bytes: two
/// lowercase hexadecimal digits per byte. (Longer slices are shortened by
/// `HexDisplay`, which `requires` leaves out.)
#[verifier::external_body]
pub(crate) fn hex_display(bytes: &[u8]) -> (r: String)
    requires
        bytes@.len() < 1027,
    ensures
        r@ == lower_hex(bytes@),
{
    format!("{}", sp_core::hexdisplay::HexDisplay::from(&bytes))
}

/// The debug form of an authority key, with its SS58 address in `format`.
pub fn render_authority(id: &AuthorityId, format: u16) -> (r: String)
    ensures
        r@ == authority_debug(*id, format),
{
    let ss58 = ss58_address(&id.0, format);
    let n = ss58.as_str().unicode_len();
    let k = if n < 8 { n } else { 8 };
    let head = ss58.as_str().substring_char(0, k);
    let hex = hex_display(id.0.as_slice());
    let mut out = String::from_str("Public(");
    out.append(hex.as_str());
    out.append(" (");
    out.append(head);
    out.append("...))");
    proof {
        assert(ss58@.subrange(0, k as int) =~= ss58_head(ss58@));
    }
    out
}

/// Renders a list of authorities, with their SS58 addresses in `format`, as
/// a bracketed, comma separated list of their debug forms.
pub fn render_authorities_with(ids: &Vec<AuthorityId>, format: u16) -> (r: String)
    ensures
        r@ == authority_list(ids@, format),
{
    let mut items = String::from_str("");
    let n = ids.len();
    let mut i: usize = 0;
    proof {
        reveal_strlit("");
        assert(ids@.take(0) =~= Seq::<AuthorityId>::empty());
    }
    while i < n
        invariant
            n == ids@.len(),
            i <= n,
            items@ == authority_items(ids@.take(i as int), format),
        decreases n - i,
    {
        let item = render_authority(&ids[i], format);
        if i > 0 {
            items.append(", ");
        }
        items.append(item.as_str());
        proof {
            assert(ids@.take(i + 1).drop_last() =~= ids@.take(i as int));
            assert(ids@.take(i + 1).last() == ids@[i as int]);
            if i == 0 {
                assert(items@ =~= authority_debug(ids@[0], format));
            }
        }
        i = i + 1;
    }
    proof {
        assert(ids@.take(n as int) =~= ids@);
    }
    let mut out = String::from_str("[");
    out.append(items.as_str());
    out.append("]");
    out
}

} // verus!
