//! What the library computes around the librados and librbd calls: their error codes,
//! the lists they fill in, and the monitor command that reads a key.
use vstd::prelude::*;
use vstd::utf8::{
    decode_utf8, encode_scalar, encode_utf8, encode_utf8_decode_utf8, encode_utf8_valid_utf8, valid_utf8,
};

use crate::errors::{Error, RadosError};
use crate::json::{json_entry, json_object, json_str, JsonData, JsonEntry, JsonValue};

verus! {

broadcast use crate::json::data::group_json_view;

/// The pool of the volumes.
pub const POOL_VOLUMES: &'static str = "volumes";

/// The pool of the images that volumes are cloned from.
pub const POOL_TEMPLATES: &'static str = "templates";

/// The Ceph user whose key libvirt uses.
pub const KEYRING: &'static str = "client.libvirt";

/// The outcome of a librados or librbd call named `operation` that returned `code`: a
/// negative code is an error that carries the name and the code.
pub fn check_call(operation: &str, code: i32) -> (r: Result<(), Error>)
    ensures
        code >= 0 ==> r is Ok,
        code < 0 ==> (r matches Err(Error::Rados(e)) && e.operation@ == operation@ && e.code == code),
{
    if code < 0 {
        return Err(Error::Rados(RadosError { operation: operation.to_owned(), code }));
    }
    Ok(())
}

/// The items of a byte list whose items end with a zero byte, given the bytes after
/// the part of an item already read (`current`): the list ends at an empty item or at
/// the end of the bytes.
pub open spec fn items_from(bytes: Seq<u8>, current: Seq<u8>) -> Seq<Seq<u8>>
    decreases bytes.len(),
{
    if bytes.len() == 0 {
        if current.len() == 0 {
            Seq::empty()
        } else {
            seq![current]
        }
    } else if bytes[0] == 0 {
        if current.len() == 0 {
            Seq::empty()
        } else {
            seq![current] + items_from(bytes.drop_first(), Seq::empty())
        }
    } else {
        items_from(bytes.drop_first(), current.push(bytes[0]))
    }
}

/// The items of a zero-separated byte list, up to the first empty one.
pub open spec fn null_separated_items(bytes: Seq<u8>) -> Seq<Seq<u8>> {
    items_from(bytes, Seq::empty())
}

/// Every item is valid UTF-8.
pub open spec fn all_valid_utf8(items: Seq<Seq<u8>>) -> bool {
    forall|k: int| 0 <= k < items.len() ==> valid_utf8(#[trigger] items[k])
}

/// `String::from_utf8`: the text that `bytes` encode in UTF-8, or `None` when they are
/// not valid UTF-8.
#[verifier::external_body]
fn string_from_utf8(bytes: Vec<u8>) -> (r: Option<String>)
    ensures
        r is Some <==> valid_utf8(bytes@),
        r matches Some(s) ==> s@ == decode_utf8(bytes@),
{
    String::from_utf8(bytes).ok()
}

/// Whether `bytes` are valid UTF-8.
pub fn is_utf8(bytes: &Vec<u8>) -> (r: bool)
    ensures
        r == valid_utf8(bytes@),
{
    let copy = bytes.clone();
    string_from_utf8(copy).is_some()
}

/// The texts of a zero-separated byte list, as `null_separeted_to_vec` reads them, or
/// `None` when one of its items is not valid UTF-8.
pub fn try_null_separated_to_vec(null_separated_list: Vec<u8>) -> (r: Option<Vec<String>>)
    ensures
        r is Some <==> all_valid_utf8(null_separated_items(null_separated_list@)),
        r matches Some(v) ==> v.len() == null_separated_items(null_separated_list@).len() && forall|k: int|
            0 <= k < v.len() ==> (#[trigger] v@[k])@ == decode_utf8(null_separated_items(null_separated_list@)[k]),
{
    let ghost all = null_separated_list@;
    let ghost items = null_separated_items(all);
    let mut result: Vec<String> = Vec::new();
    let ghost mut done: Seq<Seq<u8>> = Seq::empty();
    let mut current: Vec<u8> = Vec::new();
    let mut i: usize = 0;
    assert(all.subrange(0, all.len() as int) =~= all);
    assert(current@ =~= Seq::<u8>::empty());
    assert(done + items =~= items);
    while i < null_separated_list.len()
        invariant
            i <= null_separated_list.len(),
            all == null_separated_list@,
            items == null_separated_items(all),
            done + items_from(all.subrange(i as int, all.len() as int), current@) == items,
            all_valid_utf8(done),
            result.len() == done.len(),
            forall|k: int| 0 <= k < result.len() ==> (#[trigger] result@[k])@ == decode_utf8(done[k]),
        decreases all.len() - i,
    {
        let ghost rest = all.subrange(i as int, all.len() as int);
        assert(rest[0] == all[i as int]);
        assert(rest.drop_first() =~= all.subrange(i + 1, all.len() as int));
        let b = null_separated_list[i];
        if b == 0 {
            if current.len() == 0 {
                assert(done + items_from(rest, current@) == done);
                assert(done + Seq::<Seq<u8>>::empty() =~= done);
                assert(items == done);
                return Some(result);
            }
            let ghost item = current@;
            assert(items[done.len() as int] == item) by {
                assert((done + (seq![item] + items_from(rest.drop_first(), Seq::empty())))[done.len() as int] == item);
            }
            let mut taken: Vec<u8> = Vec::new();
            std::mem::swap(&mut taken, &mut current);
            match string_from_utf8(taken) {
                Some(text) => {
                    result.push(text);
                },
                None => {
                    assert(!all_valid_utf8(items));
                    return None;
                },
            }
            proof {
                assert(done + items_from(rest, item) =~= done.push(item) + items_from(
                    rest.drop_first(),
                    Seq::empty(),
                ));
                done = done.push(item);
            }
        } else {
            current.push(b);
        }
        i = i + 1;
    }
    let ghost rest = all.subrange(i as int, all.len() as int);
    assert(rest.len() == 0);
    if current.len() > 0 {
        let ghost item = current@;
        assert(items_from(rest, item) == seq![item]);
        assert(items[done.len() as int] == item) by {
            assert((done + seq![item])[done.len() as int] == item);
        }
        match string_from_utf8(current) {
            Some(text) => {
                result.push(text);
            },
            None => {
                assert(!all_valid_utf8(items));
                return None;
            },
        }
        proof {
            done = done.push(item);
        }
    }
    assert(done =~= items);
    Some(result)
}

/// The texts of a zero-separated byte list, such as the pool or image names that
/// librados and librbd write into a buffer: the items up to the first empty one.
pub fn null_separeted_to_vec(null_separated_list: Vec<u8>) -> (r: Vec<String>)
    requires
        all_valid_utf8(null_separated_items(null_separated_list@)),
    ensures
        r.len() == null_separated_items(null_separated_list@).len(),
        forall|k: int|
            0 <= k < r.len() ==> (#[trigger] r@[k])@ == decode_utf8(null_separated_items(null_separated_list@)[k]),
{
    try_null_separated_to_vec(null_separated_list).unwrap()
}

/// The zero-separated byte list of `items`: each item followed by a zero byte.
pub open spec fn null_terminated(items: Seq<Seq<u8>>) -> Seq<u8>
    decreases items.len(),
{
    if items.len() == 0 {
        Seq::empty()
    } else {
        items[0] + seq![0u8] + null_terminated(items.drop_first())
    }
}

/// Reading past bytes that hold no zero adds them to the item being read.
proof fn lemma_items_skip_word(word: Seq<u8>, more: Seq<u8>, current: Seq<u8>)
    requires
        !word.contains(0u8),
    ensures
        items_from(word + more, current) == items_from(more, current + word),
    decreases word.len(),
{
    if word.len() == 0 {
        assert(word + more =~= more);
        assert(current + word =~= current);
    } else {
        assert((word + more)[0] == word[0]);
        assert(word[0] != 0u8) by {
            if word[0] == 0u8 {
                assert(word.contains(0u8));
            }
        }
        assert((word + more).drop_first() =~= word.drop_first() + more);
        assert(!word.drop_first().contains(0u8)) by {
            if word.drop_first().contains(0u8) {
                let i = choose|i: int| 0 <= i < word.drop_first().len() && word.drop_first()[i] == 0u8;
                assert(word[i + 1] == 0u8);
            }
        }
        lemma_items_skip_word(word.drop_first(), more, current.push(word[0]));
        assert(current.push(word[0]) + word.drop_first() =~= current + word);
    }
}

/// A list of names that librados writes, each followed by a zero byte, then a zero
/// byte or the end of the buffer, reads back as the same names, when no name is empty
/// or holds a zero byte.
pub proof fn lemma_null_separated_round_trip(items: Seq<Seq<u8>>, tail: Seq<u8>)
    requires
        forall|k: int| 0 <= k < items.len() ==> (#[trigger] items[k]).len() > 0 && !items[k].contains(0u8),
        tail.len() == 0 || tail[0] == 0u8,
    ensures
        null_separated_items(null_terminated(items) + tail) == items,
    decreases items.len(),
{
    if items.len() == 0 {
        assert(null_terminated(items) + tail =~= tail);
    } else {
        let rest = items.drop_first();
        assert forall|k: int| 0 <= k < rest.len() implies (#[trigger] rest[k]).len() > 0 && !rest[k].contains(0u8) by {
            assert(rest[k] == items[k + 1]);
        }
        lemma_null_separated_round_trip(rest, tail);
        let after = null_terminated(rest) + tail;
        assert(null_terminated(items) + tail =~= items[0] + (seq![0u8] + after));
        lemma_items_skip_word(items[0], seq![0u8] + after, Seq::empty());
        assert(Seq::<u8>::empty() + items[0] =~= items[0]);
        assert((seq![0u8] + after)[0] == 0u8);
        assert((seq![0u8] + after).drop_first() =~= after);
        assert(seq![items[0]] + rest =~= items);
    }
}

/// No byte of the UTF-8 encoding of a character other than NUL is zero.
proof fn lemma_encode_scalar_no_zero(c: u32)
    requires
        0 < c <= 0x10FFFF,
    ensures
        encode_scalar(c).len() > 0,
        !encode_scalar(c).contains(0u8),
{
    let e = encode_scalar(c);
    assert(c <= 0x7F ==> (c & 0x7F) as u8 != 0u8) by (bit_vector)
        requires
            0 < c,
    ;
    assert((0xC0u8 | ((c >> 6) & 0x1F) as u8) != 0u8) by (bit_vector);
    assert((0xE0u8 | ((c >> 12) & 0x0F) as u8) != 0u8) by (bit_vector);
    assert((0xF0u8 | ((c >> 18) & 0x7) as u8) != 0u8) by (bit_vector);
    assert((0x80u8 | (c & 0x3F) as u8) != 0u8) by (bit_vector);
    assert((0x80u8 | ((c >> 6) & 0x3F) as u8) != 0u8) by (bit_vector);
    assert((0x80u8 | ((c >> 12) & 0x3F) as u8) != 0u8) by (bit_vector);
    assert forall|i: int| 0 <= i < e.len() implies e[i] != 0u8 by {}
}

/// The UTF-8 encoding of a text without NUL characters holds no zero byte, and is empty
/// only when the text is.
proof fn lemma_encode_no_zero(chars: Seq<char>)
    requires
        !chars.contains('\0'),
    ensures
        !encode_utf8(chars).contains(0u8),
        chars.len() > 0 ==> encode_utf8(chars).len() > 0,
    decreases chars.len(),
{
    if chars.len() > 0 {
        let rest = chars.drop_first();
        assert(!rest.contains('\0')) by {
            if rest.contains('\0') {
                let i = choose|i: int| 0 <= i < rest.len() && rest[i] == '\0';
                assert(chars[i + 1] == '\0');
            }
        }
        lemma_encode_no_zero(rest);
        assert(chars[0] != '\0');
        let c = chars[0] as u32;
        vstd::utf8::char_is_scalar(chars[0]);
        vstd::utf8::char_u32_cast(chars[0], c);
        vstd::utf8::char_u32_cast('\0', '\0' as u32);
        assert(('\0' as u32) == 0u32);
        assert(c != 0);
        lemma_encode_scalar_no_zero(c);
        let first = encode_scalar(c);
        let all = first + encode_utf8(rest);
        assert(all == encode_utf8(chars));
        assert forall|i: int| 0 <= i < all.len() implies all[i] != 0u8 by {
            if i < first.len() {
                assert(all[i] == first[i]);
                assert(!first.contains(0u8));
                if first[i] == 0u8 {
                    assert(first.contains(0u8));
                }
            } else {
                assert(all[i] == encode_utf8(rest)[i - first.len()]);
                if encode_utf8(rest)[i - first.len()] == 0u8 {
                    assert(encode_utf8(rest).contains(0u8));
                }
            }
        }
    }
}

/// The UTF-8 encodings of `names`, in order.
pub open spec fn encoded_names(names: Seq<Seq<char>>) -> Seq<Seq<u8>> {
    names.map_values(|n: Seq<char>| encode_utf8(n))
}

/// Names that librados writes into a buffer, each in UTF-8 and followed by a zero byte,
/// then a zero byte or the end of the buffer, read back as the same texts, when no name
/// is empty or holds a NUL character: every item is valid UTF-8, there is one item per
/// name, and each decodes to its name.
pub proof fn lemma_null_separated_names_round_trip(names: Seq<Seq<char>>, tail: Seq<u8>)
    requires
        forall|k: int| 0 <= k < names.len() ==> (#[trigger] names[k]).len() > 0 && !names[k].contains('\0'),
        tail.len() == 0 || tail[0] == 0u8,
    ensures
        all_valid_utf8(null_separated_items(null_terminated(encoded_names(names)) + tail)),
        null_separated_items(null_terminated(encoded_names(names)) + tail).len() == names.len(),
        forall|k: int|
            0 <= k < names.len() ==> decode_utf8(
                #[trigger] null_separated_items(null_terminated(encoded_names(names)) + tail)[k],
            ) == names[k],
{
    let items = encoded_names(names);
    assert forall|k: int| 0 <= k < items.len() implies (#[trigger] items[k]).len() > 0 && !items[k].contains(0u8) by {
        lemma_encode_no_zero(names[k]);
    }
    lemma_null_separated_round_trip(items, tail);
    assert forall|k: int| 0 <= k < items.len() implies valid_utf8(#[trigger] items[k]) by {
        encode_utf8_valid_utf8(names[k]);
    }
    assert forall|k: int| 0 <= k < names.len() implies decode_utf8(#[trigger] items[k]) == names[k] by {
        encode_utf8_decode_utf8(names[k]);
    }
}

/// The monitor command that reads the key of the user `key_name`.
pub fn auth_get_key_command(key_name: &str) -> (r: JsonValue)
    ensures
        r@ == JsonData::Object(
            seq![("prefix"@, JsonData::Str("auth get-key"@)), ("entity"@, JsonData::Str(key_name@))],
        ),
{
    let mut entries: Vec<JsonEntry> = Vec::new();
    entries.push(json_entry("prefix", json_str("auth get-key")));
    entries.push(json_entry("entity", json_str(key_name)));
    let r = json_object(entries);
    assert(crate::json::entries_view(entries@) =~= seq![
        ("prefix"@, JsonData::Str("auth get-key"@)),
        ("entity"@, JsonData::Str(key_name@)),
    ]);
    r
}

/// The key that the monitor command answered with, from the code the call returned and
/// the output it wrote: a negative code is the call's error; an empty output is an
/// error with code 1; else the key is the output's text.
pub fn auth_key_from_reply(code: i32, output: Vec<u8>) -> (r: Result<String, Error>)
    requires
        code >= 0 && output.len() > 0 ==> valid_utf8(output@),
    ensures
        code < 0 ==> (r matches Err(Error::Rados(e)) && e.operation@ == "rados_mon_command (auth get-key)"@
            && e.code == code),
        code >= 0 && output.len() > 0 ==> (r matches Ok(key) && key@ == decode_utf8(output@)),
        code >= 0 && output.len() == 0 ==> (r matches Err(Error::Rados(e)) && e.operation@ == "auth get-key"@
            && e.code == 1),
{
    check_call("rados_mon_command (auth get-key)", code)?;
    if output.len() > 0 {
        let key = string_from_utf8(output);
        return Ok(key.unwrap());
    }
    Err(Error::Rados(RadosError { operation: "auth get-key".to_owned(), code: 1 }))
}

} // verus!
