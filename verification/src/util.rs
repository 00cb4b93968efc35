//! Small helpers shared by the parser and the registry.

use twilight_model::channel::message::Embed;
use twilight_util::builder::embed::EmbedBuilder;
use twilight_validate::embed::EmbedValidationError;
use vstd::prelude::*;
use vstd::utf8::encode_utf8;

verus! {

/// A message embed of the platform's model. Verus sees nothing inside it;
/// the crate only carries it to the transport.
#[verifier::external_type_specification]
#[verifier::external_body]
pub struct ExEmbed(Embed);

/// The reason for which the platform's rules refuse an embed.
#[verifier::external_type_specification]
#[verifier::external_body]
pub struct ExEmbedValidationError(EmbedValidationError);

/// The most a colour can be: 24 bits of red, green and blue.
pub const COLOR_MAXIMUM: u32 = 0xff_ff_ff;

/// The limits that the platform sets on an embed of colour, title and
/// description: title and description together hold at most 6000 bytes,
/// the colour is an RGB value, the description has at most 4096 characters
/// and the title at most 256.
pub open spec fn embed_fits(color: u32, title: Seq<char>, description: Seq<char>) -> bool {
    &&& encode_utf8(title).len() + encode_utf8(description).len() <= 6000
    &&& color <= COLOR_MAXIMUM
    &&& description.len() <= 4096
    &&& title.len() <= 256
}

/// `EmbedBuilder` from twilight-util: an embed of the given colour, title
/// and description, passed through the builder's `validate`. The embed is
/// built exactly where it keeps the platform's limits; what it then holds
/// is not visible to Verus.
#[verifier::external_body]
pub fn simple_embed(color: u32, title: &str, desc: &str) -> (built: Result<
    Embed,
    EmbedValidationError,
>)
    ensures
        built is Ok <==> embed_fits(color, title@, desc@),
{
    Ok(EmbedBuilder::new().color(color).title(title).description(desc).validate()?.build())
}

/// The unsigned integer whose big-endian encoding is the first eight bytes
/// of `bytes`.
pub open spec fn be_u64(bytes: Seq<u8>) -> int
    recommends
        bytes.len() >= 8,
{
    bytes[0] * 0x0100_0000_0000_0000 + bytes[1] * 0x0001_0000_0000_0000 + bytes[2]
        * 0x0000_0100_0000_0000 + bytes[3] * 0x0000_0001_0000_0000 + bytes[4] * 0x0100_0000
        + bytes[5] * 0x0001_0000 + bytes[6] * 0x0100 + bytes[7]
}

/// What `coerce_into_u64` yields: zero for a slice shorter than eight bytes,
/// otherwise the big-endian value of its first eight bytes.
pub open spec fn coerced_u64(bytes: Seq<u8>) -> int {
    if bytes.len() < 8 {
        0
    } else {
        be_u64(bytes)
    }
}

/// Reads a stored role id: the first eight bytes of `slice`, big-endian.
/// A slice that is too short reads as zero; bytes after the eighth are
/// ignored.
pub fn coerce_into_u64(slice: &[u8]) -> (value: u64)
    ensures
        value == coerced_u64(slice@),
{
    if slice.len() < 8 {
        return 0;
    }
    let mut value: u64 = 0;
    let mut i: usize = 0;
    while i < 8
        invariant
            i <= 8,
            slice@.len() >= 8,
            i == 0 ==> value == 0,
            i == 1 ==> value == slice@[0],
            i == 2 ==> value == slice@[0] * 0x100 + slice@[1],
            i == 3 ==> value == slice@[0] * 0x1_0000 + slice@[1] * 0x100 + slice@[2],
            i == 4 ==> value == slice@[0] * 0x100_0000 + slice@[1] * 0x1_0000 + slice@[2] * 0x100
                + slice@[3],
            i == 5 ==> value == slice@[0] * 0x1_0000_0000 + slice@[1] * 0x100_0000 + slice@[2]
                * 0x1_0000 + slice@[3] * 0x100 + slice@[4],
            i == 6 ==> value == slice@[0] * 0x100_0000_0000 + slice@[1] * 0x1_0000_0000
                + slice@[2] * 0x100_0000 + slice@[3] * 0x1_0000 + slice@[4] * 0x100 + slice@[5],
            i == 7 ==> value == slice@[0] * 0x1_0000_0000_0000 + slice@[1] * 0x100_0000_0000
                + slice@[2] * 0x1_0000_0000 + slice@[3] * 0x100_0000 + slice@[4] * 0x1_0000
                + slice@[5] * 0x100 + slice@[6],
            i == 8 ==> value == be_u64(slice@),
        decreases 8 - i,
    {
        value = value * 256 + slice[i] as u64;
        i += 1;
    }
    value
}

} // verus!
