//! What holds of every list of formats that is made of what a device says.

use vstd::prelude::*;

use super::extension::Version;
use super::format::{
    classify_format_query, drm_format_query, init_formats, queries_format, shm_format_query,
    wl_shm_format, Asked, FormatModifierProperties, FormatReply, Formats, ImageFormatQuery,
    ModifierReply, ShmFormat,
};
use crate::backend::allocator::DrmFormat;

verus! {

broadcast use vstd::std_specs::hash::group_hash_axioms;

/// A device may be asked for a format. All formats were there from the first version on but the two
/// that have four bits per channel in one order or the other.
pub open spec fn is_there(version: Version, enabled: Seq<String>, vk_format: i32) -> bool {
    ||| vk_format != 1_000_340_000 && vk_format != 3
    ||| super::laws::is_listed(enabled, "VK_EXT_4444_formats"@)
    ||| version.major > 1
    ||| version.major == 1 && version.minor >= 3
}

/// Whether a device may be asked for a format is told by the format, the version and the extensions
/// that are enabled.
pub proof fn formats_are_asked_for_where_they_are_there(
    version: Version,
    enabled: Vec<String>,
    vk_format: i32,
    r: bool,
)
    requires
        call_ensures(queries_format, (&version, &enabled, vk_format), r),
    ensures
        r == is_there(version, enabled@, vk_format),
{
}

/// What a device says of a format counts.
pub open spec fn counts(asked: Asked, reply: FormatReply) -> bool {
    reply.vk_format matches Some(vk_format) && is_there(
        asked.api_version,
        asked.enabled_extensions@,
        vk_format,
    )
}

/// What a device says of a format counts, and textures can have the format.
pub open spec fn has_texture(asked: Asked, reply: FormatReply) -> bool {
    counts(asked, reply) && (reply.texture matches Ok(Some(_)))
}

/// A number in `wl_shm` is that of a fourcc: 0 and 1 are `AR24` and `XR24`, and every other fourcc
/// that is a format of `wl_shm` has its own number there.
pub open spec fn is_code_of(fourcc: u32, code: u32) -> bool {
    ||| fourcc == 0x3432_5241 && code == 0
    ||| fourcc == 0x3432_5258 && code == 1
    ||| fourcc != 0x3432_5241 && fourcc != 0x3432_5258 && code == fourcc
        && crate::wayland::protocol::is_shm_format(fourcc)
}

/// A fourcc has exactly the number in `wl_shm` that it is known by, and no two have the same but
/// those whose own number is 0 or 1.
pub proof fn formats_have_their_own_numbers(
    first: u32,
    second: u32,
    code: u32,
    r: Option<u32>,
    other: Option<u32>,
)
    requires
        call_ensures(wl_shm_format, (first,), r),
        call_ensures(wl_shm_format, (second,), other),
    ensures
        r == Some(code) <==> is_code_of(first, code),
        r is Some && r == other && first > 1 && second > 1 ==> first == second,
{
}

proof fn lemma_codes(asked: Asked, replies: Seq<FormatReply>, code: u32)
    ensures
        super::format::wl_shm_after(asked, replies).contains(code) <==> exists|i: int|
            0 <= i < replies.len() && has_texture(asked, #[trigger] replies[i]) && is_code_of(
                replies[i].fourcc,
                code,
            ),
    decreases replies.len(),
{
    if replies.len() > 0 {
        let front = replies.drop_last();
        lemma_codes(asked, front, code);
        let before = super::format::wl_shm_after(asked, front);
        let after = super::format::wl_shm_after(asked, replies);
        let last = replies.last();
        assert(replies[replies.len() - 1] == last);
        if after.contains(code) {
            if before.contains(code) {
                let i = choose|i: int|
                    0 <= i < front.len() && has_texture(asked, #[trigger] front[i]) && is_code_of(
                        front[i].fourcc,
                        code,
                    );
                assert(has_texture(asked, replies[i]));
            } else {
                let k = choose|k: int| 0 <= k < after.len() && after[k] == code;
                assert(k < before.len() ==> before[k] == code);
                assert(has_texture(asked, replies[replies.len() - 1]));
            }
        }
        if exists|i: int|
            0 <= i < replies.len() && has_texture(asked, #[trigger] replies[i]) && is_code_of(
                replies[i].fourcc,
                code,
            ) {
            let i = choose|i: int|
                0 <= i < replies.len() && has_texture(asked, #[trigger] replies[i]) && is_code_of(
                    replies[i].fourcc,
                    code,
                );
            if i < front.len() {
                assert(has_texture(asked, front[i]));
                let k = choose|k: int| 0 <= k < before.len() && before[k] == code;
                assert(after[k] == code);
            } else {
                assert(after.last() == code);
            }
        }
    }
}

/// The formats of `wl_shm` are those, and only those, of the replies that count and that say that
/// textures can have the format.
pub proof fn memory_formats_are_listed(
    asked: Asked,
    replies: Vec<FormatReply>,
    r: Result<Formats, i32>,
    code: u32,
)
    requires
        call_ensures(init_formats, (&asked, &replies), r),
    ensures
        r matches Ok(formats) ==> (formats.wl_shm@.contains(code) <==> exists|i: int|
            0 <= i < replies@.len() && has_texture(asked, #[trigger] replies@[i]) && is_code_of(
                replies@[i].fourcc,
                code,
            )),
{
    lemma_codes(asked, replies@, code);
}

/// Without replies there are no formats.
pub proof fn nothing_is_said_of_nothing(
    asked: Asked,
    replies: Vec<FormatReply>,
    r: Result<Formats, i32>,
)
    requires
        call_ensures(init_formats, (&asked, &replies), r),
        replies@.len() == 0,
    ensures
        r matches Ok(formats) && {
            &&& formats.wl_shm@.len() == 0
            &&& formats.drm_importable@.len() == 0
            &&& forall|format: i32| !#[trigger] formats.shm_formats@.contains_key(format)
            &&& forall|format: i32| !#[trigger] formats.drm_modifiers@.contains_key(format)
            &&& forall|format: i32| !#[trigger] formats.drm_properties@.contains_key(format)
        },
{
    match r {
        Ok(formats) => {
            assert forall|format: i32| !#[trigger] formats.drm_modifiers@.contains_key(format) by {
                assert(!formats.drm_modifiers@.dom().contains(format));
            }
            assert forall|format: i32| !#[trigger] formats.drm_properties@.contains_key(format) by {
                assert(!formats.drm_properties@.dom().contains(format));
            }
        },
        Err(_) => {},
    }
}

/// One more reply that counts adds its format for memory at the end, with what textures and
/// downloads of it can be used for. One that does not count, or that says that textures cannot have
/// the format, adds none.
pub proof fn each_reply_adds_its_memory_format(
    asked: Asked,
    shorter: Vec<FormatReply>,
    longer: Vec<FormatReply>,
    reply: FormatReply,
    before: Formats,
    after: Formats,
    code: u32,
)
    requires
        call_ensures(init_formats, (&asked, &shorter), Ok::<Formats, i32>(before)),
        call_ensures(init_formats, (&asked, &longer), Ok::<Formats, i32>(after)),
        longer@ == shorter@.push(reply),
    ensures
        has_texture(asked, reply) && is_code_of(reply.fourcc, code) ==> after.wl_shm@
            == before.wl_shm@.push(code),
        !has_texture(asked, reply) || wl_shm_free(reply.fourcc) ==> after.wl_shm@
            == before.wl_shm@,
        has_texture(asked, reply) ==> (reply.download matches Ok(download) && after.shm_formats@
            == before.shm_formats@.insert(
            reply.vk_format->0,
            ShmFormat { texture: reply.texture->Ok_0->0, download },
        )),
        !has_texture(asked, reply) ==> after.shm_formats@ == before.shm_formats@,
{
    assert(longer@.drop_last() =~= shorter@);
    assert(longer@.last() == reply);
    match super::format::wl_shm_of(reply.fourcc) {
        Some(own) => {
            assert(is_code_of(reply.fourcc, own));
        },
        None => {},
    }
}

/// A fourcc has no number in `wl_shm`.
pub open spec fn wl_shm_free(fourcc: u32) -> bool {
    forall|code: u32| !#[trigger] is_code_of(fourcc, code)
}

/// What a device says of a modifier is that textures can have it.
pub open spec fn is_usable(reply: ModifierReply) -> bool {
    reply.texture matches Ok(Some(_))
}

/// The format that is imported with a modifier.
pub open spec fn with_modifier(fourcc: u32, reply: ModifierReply) -> DrmFormat {
    DrmFormat { code: fourcc, modifier: reply.properties.drm_format_modifier }
}

proof fn lemma_importable(fourcc: u32, replies: Seq<ModifierReply>)
    ensures
        super::format::importable_of(fourcc, replies) == replies.filter(
            |reply: ModifierReply| is_usable(reply),
        ).map_values(|reply: ModifierReply| with_modifier(fourcc, reply)),
    decreases replies.len(),
{
    reveal(Seq::filter);
    let keep = |reply: ModifierReply| is_usable(reply);
    let give = |reply: ModifierReply| with_modifier(fourcc, reply);
    if replies.len() > 0 {
        let front = replies.drop_last();
        lemma_importable(fourcc, front);
        let last = replies.last();
        if is_usable(last) {
            assert(replies.filter(keep) =~= front.filter(keep).push(last));
            assert(replies.filter(keep).map_values(give) =~= front.filter(keep).map_values(
                give,
            ).push(give(last)));
        } else {
            assert(replies.filter(keep) =~= front.filter(keep));
        }
        assert(super::format::importable_of(fourcc, replies) =~= replies.filter(keep).map_values(
            give,
        ));
    } else {
        assert(replies.filter(keep).map_values(give) =~= Seq::empty());
    }
}

/// One more reply that counts adds, where dmabufs can be used, its format with each of the
/// modifiers that textures can have, in order. The modifiers that the device knows of the format,
/// if it knows any, are those of the reply. All else stays.
pub proof fn each_reply_adds_its_modifiers(
    asked: Asked,
    shorter: Vec<FormatReply>,
    longer: Vec<FormatReply>,
    reply: FormatReply,
    before: Formats,
    after: Formats,
    format: i32,
)
    requires
        call_ensures(init_formats, (&asked, &shorter), Ok::<Formats, i32>(before)),
        call_ensures(init_formats, (&asked, &longer), Ok::<Formats, i32>(after)),
        longer@ == shorter@.push(reply),
    ensures
        counts(asked, reply) && asked.dmabuf ==> after.drm_importable@ == before.drm_importable@
            + reply.modifiers@.filter(|modifier: ModifierReply| is_usable(modifier)).map_values(
            |modifier: ModifierReply| with_modifier(reply.fourcc, modifier),
        ),
        !counts(asked, reply) || !asked.dmabuf ==> after.drm_importable@ == before.drm_importable@,
        counts(asked, reply) && asked.dmabuf && reply.modifiers@.len() > 0 && reply.vk_format
            == Some(format) ==> {
            &&& after.drm_modifiers@.contains_key(format)
            &&& after.drm_modifiers@[format]@.len() == reply.modifiers@.len()
            &&& forall|j: int|
                0 <= j < reply.modifiers@.len() ==> (#[trigger] after.drm_modifiers@[format]@[j])
                    == reply.modifiers@[j].properties.drm_format_modifier
        },
        !counts(asked, reply) || !asked.dmabuf || reply.modifiers@.len() == 0 || reply.vk_format
            != Some(format) ==> {
            &&& after.drm_modifiers@.contains_key(format) == before.drm_modifiers@.contains_key(
                format,
            )
            &&& before.drm_modifiers@.contains_key(format) ==> after.drm_modifiers@[format]@
                == before.drm_modifiers@[format]@
        },
{
    assert(longer@.drop_last() =~= shorter@);
    assert(longer@.last() == reply);
    lemma_importable(reply.fourcc, reply.modifiers@);
    assert(after.drm_modifiers@.contains_key(format) == after.drm_modifiers@.dom().contains(format));
    assert(before.drm_modifiers@.contains_key(format) == before.drm_modifiers@.dom().contains(
        format,
    ));
    if counts(asked, reply) && asked.dmabuf && reply.modifiers@.len() > 0 && reply.vk_format == Some(
        format,
    ) {
        assert(super::format::counted(asked, reply) == Some(format));
        assert(super::format::modifiers_after(asked, longer@).dom().contains(format));
        assert(after.drm_modifiers@.contains_key(format));
        assert(after.drm_modifiers@[format]@ == super::format::modifiers_of(reply.modifiers@));
    }
}

/// Reply `j` is the last of a list on its modifier of those that say that textures can have it.
pub open spec fn is_last_usable(replies: Seq<ModifierReply>, j: int) -> bool {
    &&& 0 <= j < replies.len()
    &&& is_usable(replies[j])
    &&& forall|k: int|
        j < k < replies.len() && is_usable(#[trigger] replies[k])
            ==> replies[k].properties.drm_format_modifier
            != replies[j].properties.drm_format_modifier
}

/// None of a list of replies says that textures can have the modifier.
pub open spec fn is_not_usable(replies: Seq<ModifierReply>, modifier: u64) -> bool {
    forall|k: int|
        0 <= k < replies.len() && is_usable(#[trigger] replies[k])
            ==> replies[k].properties.drm_format_modifier != modifier
}

proof fn lemma_textures(
    known: Map<u64, FormatModifierProperties>,
    replies: Seq<ModifierReply>,
    j: int,
    modifier: u64,
)
    ensures
        ({
            let after = super::format::textures_after(known, replies);
            &&& is_last_usable(replies, j) ==> {
                let modifier = replies[j].properties.drm_format_modifier;
                &&& after.contains_key(modifier)
                &&& after[modifier].image_properties == replies[j].texture->Ok_0->0
                &&& after[modifier].modifier_properties == replies[j].properties
            }
            &&& is_not_usable(replies, modifier) ==> {
                &&& after.contains_key(modifier) == known.contains_key(modifier)
                &&& known.contains_key(modifier) ==> after[modifier] == known[modifier]
            }
        }),
    decreases replies.len(),
{
    if replies.len() > 0 {
        let front = replies.drop_last();
        lemma_textures(known, front, j, modifier);
        let last = replies.last();
        assert(last == replies[replies.len() - 1]);
        if is_last_usable(replies, j) && j < front.len() {
            assert(is_last_usable(front, j)) by {
                assert forall|k: int|
                    j < k < front.len() && is_usable(
                        #[trigger] front[k],
                    ) implies front[k].properties.drm_format_modifier
                    != front[j].properties.drm_format_modifier by {
                    assert(replies[k] == front[k]);
                }
            }
        }
        if is_not_usable(replies, modifier) {
            assert(is_not_usable(front, modifier)) by {
                assert forall|k: int|
                    0 <= k < front.len() && is_usable(
                        #[trigger] front[k],
                    ) implies front[k].properties.drm_format_modifier
                    != modifier by {
                    assert(replies[k] == front[k]);
                }
            }
        }
    }
}

/// After one more reply that counts, where dmabufs can be used, the properties of each modifier
/// that textures can have are known, the last being those that are. Those of other modifiers and of
/// other formats stay.
pub proof fn each_reply_makes_its_modifiers_known(
    asked: Asked,
    shorter: Vec<FormatReply>,
    longer: Vec<FormatReply>,
    reply: FormatReply,
    before: Formats,
    after: Formats,
    format: i32,
    j: int,
    modifier: u64,
)
    requires
        call_ensures(init_formats, (&asked, &shorter), Ok::<Formats, i32>(before)),
        call_ensures(init_formats, (&asked, &longer), Ok::<Formats, i32>(after)),
        longer@ == shorter@.push(reply),
    ensures
        counts(asked, reply) && asked.dmabuf && reply.vk_format == Some(format) && is_last_usable(
            reply.modifiers@,
            j,
        ) ==> after.drm_properties@.contains_key(format) && {
            let said = reply.modifiers@[j];
            let known = after.drm_properties@[format].texture@;
            &&& known.contains_key(said.properties.drm_format_modifier)
            &&& known[said.properties.drm_format_modifier].modifier_properties == said.properties
            &&& said.texture matches Ok(Some(image))
            &&& known[said.properties.drm_format_modifier].image_properties == image
        },
        !counts(asked, reply) || !asked.dmabuf || reply.vk_format != Some(format) ==> {
            &&& after.drm_properties@.contains_key(format) == before.drm_properties@.contains_key(
                format,
            )
            &&& before.drm_properties@.contains_key(format)
                ==> after.drm_properties@[format].texture@
                == before.drm_properties@[format].texture@
        },
        is_not_usable(reply.modifiers@, modifier) ==> {
            let knew = before.drm_properties@.contains_key(format)
                && before.drm_properties@[format].texture@.contains_key(modifier);
            let knows = after.drm_properties@.contains_key(format)
                && after.drm_properties@[format].texture@.contains_key(modifier);
            &&& knew == knows
            &&& knew ==> after.drm_properties@[format].texture@[modifier]
                == before.drm_properties@[format].texture@[modifier]
        },
{
    assert(longer@.drop_last() =~= shorter@);
    assert(longer@.last() == reply);
    let knew = super::format::properties_after(asked, shorter@);
    let known = if knew.contains_key(format) {
        knew[format]
    } else {
        Map::empty()
    };
    lemma_textures(known, reply.modifiers@, j, modifier);
    lemma_importable(reply.fourcc, reply.modifiers@);
    let usable = reply.modifiers@.filter(|modifier: ModifierReply| is_usable(modifier));
    if is_last_usable(reply.modifiers@, j) {
        let keep = |modifier: ModifierReply| is_usable(modifier);
        reply.modifiers@.filter_lemma(keep);
        assert(usable.contains(reply.modifiers@[j]));
        assert(usable.len() > 0);
    }
    let knows = super::format::properties_after(asked, longer@);
    if counts(asked, reply) && asked.dmabuf && reply.vk_format == Some(format) && usable.len() > 0 {
        assert(super::format::counted(asked, reply) == Some(format));
        assert(super::format::importable_of(reply.fourcc, reply.modifiers@).len() == usable.len());
        assert(knows.dom().contains(format));
        assert(knows[format] == super::format::textures_after(known, reply.modifiers@));
        assert(after.drm_properties@.dom().contains(format));
        assert(after.drm_properties@[format].texture@ == knows[format]);
    }
    assert(after.drm_properties@.contains_key(format) == after.drm_properties@.dom().contains(
        format,
    ));
    assert(before.drm_properties@.contains_key(format) == before.drm_properties@.dom().contains(
        format,
    ));
}

/// A reply holds an error that counts.
pub open spec fn is_error(asked: Asked, reply: FormatReply) -> bool {
    counts(asked, reply) && {
        ||| reply.texture is Err
        ||| (reply.texture matches Ok(Some(_))) && reply.download is Err
        ||| asked.dmabuf && exists|j: int|
            0 <= j < reply.modifiers@.len() && (#[trigger] reply.modifiers@[j]).texture is Err
    }
}

proof fn lemma_modifier_error(replies: Seq<ModifierReply>, j: int)
    ensures
        super::format::modifier_error(replies) is Some <==> exists|k: int|
            0 <= k < replies.len() && (#[trigger] replies[k]).texture is Err,
        0 <= j < replies.len() && replies[j].texture is Err && (forall|k: int|
            0 <= k < j ==> !((#[trigger] replies[k]).texture is Err))
            ==> super::format::modifier_error(replies) == Some(replies[j].texture->Err_0),
    decreases replies.len(),
{
    if replies.len() > 0 {
        let front = replies.drop_last();
        lemma_modifier_error(front, j);
        assert(replies.last() == replies[replies.len() - 1]);
        if exists|k: int| 0 <= k < front.len() && (#[trigger] front[k]).texture is Err {
            let k = choose|k: int| 0 <= k < front.len() && (#[trigger] front[k]).texture is Err;
            assert(replies[k].texture is Err);
        }
        assert(forall|k: int| 0 <= k < front.len() ==> #[trigger] replies[k] == front[k]);
    }
}

/// There are formats exactly if no reply holds an error that counts. Where there is one, the error
/// is that of the first such reply: of the texture, or else of the download, or else of the first
/// modifier that has one.
pub proof fn the_first_error_is_returned(
    asked: Asked,
    shorter: Vec<FormatReply>,
    longer: Vec<FormatReply>,
    reply: FormatReply,
    before: Result<Formats, i32>,
    after: Result<Formats, i32>,
    j: int,
)
    requires
        call_ensures(init_formats, (&asked, &shorter), before),
        call_ensures(init_formats, (&asked, &longer), after),
        longer@ == shorter@.push(reply),
    ensures
        before matches Err(error) ==> (after matches Err(same) && same == error),
        before is Ok ==> (after is Err <==> is_error(asked, reply)),
        before is Ok && counts(asked, reply) ==> {
            &&& reply.texture matches Err(error) ==> (after matches Err(same) && same == error)
            &&& (reply.texture matches Ok(Some(_))) && (reply.download is Err) ==> (
            after matches Err(same) && same == reply.download->Err_0)
            &&& asked.dmabuf && reply.texture is Ok && (reply.download is Ok || reply.texture->Ok_0
                is None) && 0 <= j < reply.modifiers@.len() && reply.modifiers@[j].texture is Err
                && (forall|k: int|
                0 <= k < j ==> !((#[trigger] reply.modifiers@[k]).texture is Err)) ==> (
            after matches Err(same) && same == reply.modifiers@[j].texture->Err_0)
        },
{
    assert(longer@.drop_last() =~= shorter@);
    assert(longer@.last() == reply);
    lemma_modifier_error(reply.modifiers@, j);
}

/// A question on a format is on images of that format with the given usage, which have two
/// dimensions and no creation bits. Images of memory are tiled as the driver likes, those of a
/// modifier by that modifier, which one queue at a time uses.
pub proof fn formats_are_asked_for_as_they_are_used(
    vk_format: i32,
    modifier: u64,
    usage: u32,
    memory: ImageFormatQuery,
    drm: ImageFormatQuery,
)
    requires
        call_ensures(shm_format_query, (vk_format, usage), memory),
        call_ensures(drm_format_query, (vk_format, modifier, usage), drm),
    ensures
        memory.format == vk_format && drm.format == vk_format,
        memory.usage == usage && drm.usage == usage,
        memory.image_type == 1 && drm.image_type == 1,
        memory.flags == 0 && drm.flags == 0,
        memory.tiling == 0 && memory.modifier is None,
        drm.tiling == 1_000_158_000 && drm.modifier == Some((modifier, 0i32)),
{
}

/// Only that a format is not supported is no error.
pub proof fn unsupported_formats_are_no_error<T>(
    result: Result<T, i32>,
    r: Result<Option<T>, i32>,
)
    requires
        call_ensures(classify_format_query::<T>, (result,), r),
    ensures
        result matches Ok(properties) ==> (r matches Ok(Some(same)) && same == properties),
        result matches Err(error) ==> if error == -11 {
            r matches Ok(none) && none is None
        } else {
            r matches Err(same) && same == error
        },
{
}

} // verus!
