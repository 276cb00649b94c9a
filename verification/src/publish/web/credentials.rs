//! What others need to know to trust us.
use crate::text::{decode_text, ends_with, pieces, split_on, strip, stripped, texts};
use vstd::prelude::*;
use vstd::utf8::{decode_utf8, valid_utf8};

verus! {

/// Who we are on a forge.
#[derive(Debug)]
pub struct ForgeCredentials {
    /// Kind of forge.
    pub kind: String,
    /// Name of the forge.
    pub name: String,
    /// Where it is.
    pub url: String,
    /// Our name there.
    pub user: Option<String>,
    /// Our page there.
    pub user_url: Option<String>,
}

/// Who we are.
#[derive(Debug)]
pub struct Credentials {
    /// Public keys for SSH.
    pub ssh_keys: Vec<String>,
    /// Public keys for PGP.
    pub pgp_keys: Vec<String>,
    /// Who we are on each forge.
    pub hosting: Vec<ForgeCredentials>,
}

/// Whether a file name is that of a public key: it has the extension `pub`.
pub fn is_public_key_file(file_name: &str) -> (r: bool)
    ensures
        r == (".pub"@.is_suffix_of(file_name@) && file_name@.len() > 4),
{
    ends_with(file_name, ".pub") && file_name.unicode_len() > 4
}

/// The lines of some pieces that are not blank, without white space at their
/// ends.
pub open spec fn filled(lines: Seq<Seq<char>>) -> Seq<Seq<char>>
    decreases lines.len(),
{
    if lines.len() == 0 {
        lines
    } else if stripped(lines.last()).len() > 0 {
        filled(lines.drop_last()).push(stripped(lines.last()))
    } else {
        filled(lines.drop_last())
    }
}

/// The keys in a file: its lines that are not blank, without white space at their
/// ends.
pub fn ssh_keys_in(content: &str) -> (r: Vec<String>)
    ensures
        texts(r@) == filled(pieces(content@, '\n')),
{
    let lines = split_on(content, '\n');
    let mut keys: Vec<String> = Vec::new();
    let mut i: usize = 0;
    assert(texts(keys@) =~= filled(texts(lines@).take(0)));
    while i < lines.len()
        invariant
            i <= lines.len(),
            texts(keys@) == filled(texts(lines@).take(i as int)),
        decreases lines.len() - i,
    {
        let line = strip(lines[i].as_str());
        proof {
            assert(texts(lines@).take(i + 1).drop_last() =~= texts(lines@).take(i as int));
            assert(texts(lines@).take(i + 1).last() == lines@[i as int]@);
        }
        let ghost before = keys@;
        if !line.as_str().is_empty() {
            keys.push(line);
            assert(texts(keys@) =~= texts(before).push(line@));
        }
        i = i + 1;
    }
    assert(texts(lines@).take(i as int) =~= texts(lines@));
    keys
}

/// The texts of the keys that are text.
pub open spec fn readable(keys: Seq<Vec<u8>>) -> Seq<Seq<char>>
    decreases keys.len(),
{
    if keys.len() == 0 {
        Seq::empty()
    } else if valid_utf8(keys.last()@) {
        readable(keys.drop_last()).push(decode_utf8(keys.last()@))
    } else {
        readable(keys.drop_last())
    }
}

/// The keys of a keyring from what it exports of each: those that are text.
pub fn pgp_keys_in(exported: &Vec<Vec<u8>>) -> (r: Vec<String>)
    ensures
        texts(r@) == readable(exported@),
{
    let mut keys: Vec<String> = Vec::new();
    let mut i: usize = 0;
    assert(texts(keys@) =~= readable(exported@.take(0)));
    while i < exported.len()
        invariant
            i <= exported.len(),
            texts(keys@) == readable(exported@.take(i as int)),
        decreases exported.len() - i,
    {
        proof {
            assert(exported@.take(i + 1).drop_last() =~= exported@.take(i as int));
            assert(exported@.take(i + 1).last() == exported@[i as int]);
        }
        let ghost before = keys@;
        if let Some(key) = decode_text(exported[i].as_slice()) {
            keys.push(key);
            assert(texts(keys@) =~= texts(before).push(key@));
        }
        i = i + 1;
    }
    assert(exported@.take(i as int) =~= exported@);
    keys
}

/// The keys of two files, one behind the other, are those of the first and then
/// those of the second; a line gives one key, without the space around it, unless
/// there is nothing else in it.
pub proof fn lemma_each_filled_line_is_a_key(first: Seq<Seq<char>>, second: Seq<Seq<char>>)
    ensures
        filled(first + second) == filled(first) + filled(second),
        first.len() == 1 && stripped(first[0]).len() > 0 ==> filled(first) == seq![
            stripped(first[0]),
        ],
        first.len() == 1 && stripped(first[0]).len() == 0 ==> filled(first).len() == 0,
    decreases second.len(),
{
    if first.len() == 1 {
        assert(filled(first.drop_last()).len() == 0);
        assert(stripped(first[0]).len() > 0 ==> filled(first) =~= seq![stripped(first[0])]);
    }
    if second.len() == 0 {
        assert(first + second =~= first);
        assert(filled(first) + filled(second) =~= filled(first));
    } else {
        assert((first + second).drop_last() =~= first + second.drop_last());
        lemma_each_filled_line_is_a_key(first, second.drop_last());
        assert(filled(first + second) =~= filled(first) + filled(second));
    }
}

/// Every key that can be read is given, in its order, and no other.
pub proof fn lemma_each_readable_key_is_given(first: Seq<Vec<u8>>, second: Seq<Vec<u8>>)
    ensures
        readable(first + second) == readable(first) + readable(second),
        first.len() == 1 && valid_utf8(first[0]@) ==> readable(first) == seq![
            decode_utf8(first[0]@),
        ],
        first.len() == 1 && !valid_utf8(first[0]@) ==> readable(first).len() == 0,
    decreases second.len(),
{
    if first.len() == 1 {
        assert(readable(first.drop_last()).len() == 0);
        assert(valid_utf8(first[0]@) ==> readable(first) =~= seq![decode_utf8(first[0]@)]);
    }
    if second.len() == 0 {
        assert(first + second =~= first);
        assert(readable(first) + readable(second) =~= readable(first));
    } else {
        assert((first + second).drop_last() =~= first + second.drop_last());
        lemma_each_readable_key_is_given(first, second.drop_last());
        assert(readable(first + second) =~= readable(first) + readable(second));
    }
}

} // verus!
