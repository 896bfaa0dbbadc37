//! Reading the IN arguments of an action: defaults for missing arguments,
//! required arguments, and the `0`/`1` form of booleans.
use vstd::prelude::*;

use crate::text::{chars_of, push_char, push_str, split_pieces, string_from_range, to_owned_string, trim, trimmed};
use crate::types::upnp::pairs_view;
use crate::types::upnp::{lookup, ActionArgs, Error};

verus! {

broadcast use vstd::string::group_string_axioms;

/// The value of argument `key`, or `default` when it is absent.
pub open spec fn arg_text(args: Seq<(Seq<char>, Seq<char>)>, key: Seq<char>, default: Seq<char>) -> Seq<char> {
    match lookup(args, key) {
        Some(v) => v,
        None => default,
    }
}

/// The value of argument `key`, or `default` when it is absent.
pub fn arg_or(args: &ActionArgs, key: &str, default: &str) -> (r: String)
    ensures
        r@ == arg_text(args@, key@, default@),
{
    match args.get(key) {
        Some(v) => to_owned_string(v),
        None => to_owned_string(default),
    }
}

/// The value of argument `key`; `missing` when it is absent.
pub fn arg_required(args: &ActionArgs, key: &str, missing: Error) -> (r: Result<String, Error>)
    ensures
        match lookup(args@, key@) {
            Some(v) => r matches Ok(s) && s@ == v,
            None => r == Err::<String, Error>(missing),
        },
{
    match args.get(key) {
        Some(v) => Ok(to_owned_string(v)),
        None => Err(missing),
    }
}

/// A boolean argument as SOAP sends it: `0` is false, `1` is true; anything
/// else (or no argument) is no boolean.
pub open spec fn soap_bool(v: Option<Seq<char>>) -> Option<bool> {
    match v {
        Some(s) => if s == "0"@ {
            Some(false)
        } else if s == "1"@ {
            Some(true)
        } else {
            None
        },
        None => None,
    }
}

/// The truth value of a UPnP `boolean` as it is written in a message: `1`,
/// `true` or `yes` is true; `0`, `false` or `no` is false; any other text is
/// no boolean.
pub open spec fn boolean_text_value(s: Seq<char>) -> Option<bool> {
    if s == "0"@ || s == "false"@ || s == "no"@ {
        Some(false)
    } else if s == "1"@ || s == "true"@ || s == "yes"@ {
        Some(true)
    } else {
        None
    }
}

/// The words a boolean is written with read back as what they say: `true`
/// and `1` as true, `false` and `0` as false; and the `0`/`1` form that
/// IN arguments take reads the same either way.
pub proof fn lemma_boolean_words()
    ensures
        boolean_text_value("true"@) == Some(true),
        boolean_text_value("false"@) == Some(false),
        boolean_text_value("1"@) == Some(true),
        boolean_text_value("0"@) == Some(false),
        forall|v: Seq<char>| #[trigger] soap_bool(Some(v)) is Some ==> soap_bool(Some(v)) == boolean_text_value(v),
{
    reveal_strlit("true");
    reveal_strlit("false");
    reveal_strlit("1");
    reveal_strlit("0");
    reveal_strlit("no");
    reveal_strlit("yes");
    assert("true"@.len() == 4 && "false"@.len() == 5 && "no"@.len() == 2 && "yes"@.len() == 3);
    assert("1"@.len() == 1 && "0"@.len() == 1 && "1"@[0] != "0"@[0]);
    assert("true"@ != "0"@ && "true"@ != "false"@ && "true"@ != "no"@);
    assert("1"@ != "0"@ && "1"@ != "false"@ && "1"@ != "no"@);
}

/// A reply of one argument: reading it back by its name gives its value.
pub proof fn lemma_single_reply(k: Seq<char>, v: Seq<char>)
    ensures
        lookup(seq![(k, v)], k) == Some(v),
{
    let p = seq![(k, v)];
    assert(p[0].0 == k);
    assert(crate::types::upnp::is_first_key(p, k, 0));
    crate::types::upnp::lemma_first_key(p, k);
}

/// Reads boolean argument `key` in its `0`/`1` form.
pub fn arg_bool(args: &ActionArgs, key: &str) -> (r: Option<bool>)
    ensures
        r == soap_bool(lookup(args@, key@)),
{
    match args.get(key) {
        Some(v) => {
            if crate::text::str_eq(v, "0") {
                Some(false)
            } else if crate::text::str_eq(v, "1") {
                Some(true)
            } else {
                None
            }
        },
        None => None,
    }
}

// ---------------------------------------------------------------------------
// Lists
// ---------------------------------------------------------------------------

/// The items of a comma-separated list, each trimmed of white space.
pub open spec fn csv_items(s: Seq<char>) -> Seq<Seq<char>> {
    split_pieces(s, ',').map_values(|p: Seq<char>| trimmed(p))
}

/// Splits a comma-separated list and trims each item.
pub fn split_csv(s: &str) -> (r: Vec<String>)
    ensures
        r@.map_values(|x: String| x@) == csv_items(s@),
{
    let cs = chars_of(s);
    let n = cs.len();
    let mut pieces: Vec<String> = Vec::new();
    let mut cur = String::new();
    let mut i: usize = 0;
    assert(s@.subrange(0, 0) =~= Seq::<char>::empty());
    assert(pieces@.map_values(|x: String| x@).push(cur@) =~= split_pieces(s@.subrange(0, 0), ','));
    while i < n
        invariant
            cs@ == s@,
            n == cs@.len(),
            i <= n,
            pieces@.map_values(|x: String| x@).push(cur@) == split_pieces(s@.subrange(0, i as int), ','),
        decreases n - i,
    {
        let ghost pre = s@.subrange(0, i as int);
        let ghost nxt = s@.subrange(0, i + 1);
        assert(nxt.drop_last() =~= pre);
        assert(nxt.last() == cs@[i as int]);
        let ghost before = pieces@.map_values(|x: String| x@);
        if cs[i] == ',' {
            let done = cur;
            pieces.push(done);
            cur = String::new();
            assert(pieces@.map_values(|x: String| x@) =~= before.push(done@));
            assert(pieces@.map_values(|x: String| x@).push(cur@) =~= split_pieces(nxt, ','));
        } else {
            let ghost old_cur = cur@;
            push_char(&mut cur, cs[i]);
            assert(pieces@.map_values(|x: String| x@).push(cur@) =~= before.push(old_cur).update(
                before.len() as int,
                old_cur.push(cs@[i as int]),
            ));
        }
        i = i + 1;
    }
    let last = cur;
    pieces.push(last);
    assert(s@.subrange(0, n as int) =~= s@);
    let ghost raw = pieces@.map_values(|x: String| x@);
    let mut out: Vec<String> = Vec::new();
    let mut k: usize = 0;
    while k < pieces.len()
        invariant
            raw == pieces@.map_values(|x: String| x@),
            raw == split_pieces(s@, ','),
            k <= pieces@.len(),
            out@.map_values(|x: String| x@) == raw.subrange(0, k as int).map_values(|p: Seq<char>| trimmed(p)),
        decreases pieces.len() - k,
    {
        assert(pieces@[k as int]@ == raw[k as int]);
        let t = trim(pieces[k].as_str());
        let ghost before_out = out@.map_values(|x: String| x@);
        out.push(t);
        assert(out@.map_values(|x: String| x@) =~= before_out.push(trimmed(raw[k as int])));
        assert(out@.map_values(|x: String| x@) =~= raw.subrange(0, k + 1).map_values(|p: Seq<char>| trimmed(p)));
        k = k + 1;
    }
    assert(raw.subrange(0, raw.len() as int) =~= raw);
    out
}

/// The items of a list that are not empty, in order.
pub open spec fn non_empty_items(s: Seq<Seq<char>>) -> Seq<Seq<char>>
    decreases s.len(),
{
    if s.len() == 0 {
        Seq::empty()
    } else if s.last().len() == 0 {
        non_empty_items(s.drop_last())
    } else {
        non_empty_items(s.drop_last()).push(s.last())
    }
}

/// Drops the empty items of a list.
pub fn drop_empty(items: Vec<String>) -> (r: Vec<String>)
    ensures
        r@.map_values(|x: String| x@) == non_empty_items(items@.map_values(|x: String| x@)),
{
    let ghost all = items@.map_values(|x: String| x@);
    let mut out: Vec<String> = Vec::new();
    let mut items = items;
    let mut k: usize = 0;
    let total = items.len();
    assert(all.subrange(0, 0) =~= Seq::<Seq<char>>::empty());
    while items.len() > 0
        invariant
            total == all.len(),
            k + items@.len() == total,
            items@.map_values(|x: String| x@) == all.subrange(k as int, total as int),
            out@.map_values(|x: String| x@) == non_empty_items(all.subrange(0, k as int)),
        decreases items.len(),
    {
        let ghost iv = items@.map_values(|x: String| x@);
        let ghost raw_items = items@;
        let item = items.remove(0);
        proof {
            assert(iv[0] == raw_items[0]@);
            assert(iv[0] == all[k as int]);
            assert(item@ == all[k as int]);
            assert(all.subrange(0, k + 1).drop_last() =~= all.subrange(0, k as int));
            assert(items@ =~= raw_items.subrange(1, raw_items.len() as int));
            assert forall|j: int| 0 <= j < items@.len() implies #[trigger] items@[j]@ == all[k + 1 + j] by {
                assert(items@[j] == raw_items[j + 1]);
                assert(iv[j + 1] == raw_items[j + 1]@);
            }
            assert(items@.map_values(|x: String| x@) =~= all.subrange(k + 1, total as int));
        }
        let ghost before = out@.map_values(|x: String| x@);
        if item.as_str().unicode_len() > 0 {
            out.push(item);
            assert(out@.map_values(|x: String| x@) =~= before.push(all[k as int]));
        }
        k = k + 1;
    }
    assert(all.subrange(0, total as int) =~= all);
    out
}

/// One entry of a state variable value document.
pub open spec fn state_pair_entry(name: Seq<char>, value: Seq<char>) -> Seq<char> {
    "<stateVariable variableName=\""@ + name + "\">"@ + value + "</stateVariable>"@
}

/// The entries of a state variable value document, in order.
pub open spec fn state_pair_entries(ps: Seq<(Seq<char>, Seq<char>)>) -> Seq<char>
    decreases ps.len(),
{
    if ps.len() == 0 {
        Seq::empty()
    } else {
        state_pair_entries(ps.drop_last()) + state_pair_entry(ps.last().0, ps.last().1)
    }
}

/// The `stateVariableValuePairs` document for (name, value) pairs (written
/// as given).
pub open spec fn state_pairs_document(ps: Seq<(Seq<char>, Seq<char>)>) -> Seq<char> {
    "<stateVariableValuePairs xmlns=\"urn:schemas-upnp-org:av:avs\">"@ + state_pair_entries(ps)
        + "</stateVariableValuePairs>"@
}

/// Writes the `stateVariableValuePairs` document for (name, value) pairs.
pub fn state_pairs_xml(values: &Vec<(String, String)>) -> (r: String)
    ensures
        r@ == state_pairs_document(pairs_view(values@)),
{
    let ghost ps = pairs_view(values@);
    let mut s = to_owned_string("<stateVariableValuePairs xmlns=\"urn:schemas-upnp-org:av:avs\">");
    let ghost head = s@;
    let mut i: usize = 0;
    assert(ps.subrange(0, 0) =~= Seq::<(Seq<char>, Seq<char>)>::empty());
    while i < values.len()
        invariant
            ps == pairs_view(values@),
            i <= ps.len(),
            head == "<stateVariableValuePairs xmlns=\"urn:schemas-upnp-org:av:avs\">"@,
            s@ == head + state_pair_entries(ps.subrange(0, i as int)),
        decreases values.len() - i,
    {
        let ghost before = s@;
        push_str(&mut s, "<stateVariable variableName=\"");
        push_str(&mut s, values[i].0.as_str());
        push_str(&mut s, "\">");
        push_str(&mut s, values[i].1.as_str());
        push_str(&mut s, "</stateVariable>");
        proof {
            let sub = ps.subrange(0, i + 1);
            assert(sub.drop_last() =~= ps.subrange(0, i as int));
            assert(s@ =~= before + state_pair_entry(ps[i as int].0, ps[i as int].1));
        }
        i = i + 1;
    }
    assert(ps.subrange(0, ps.len() as int) =~= ps);
    push_str(&mut s, "</stateVariableValuePairs>");
    s
}

/// The InstanceID argument as the actions read it: its decimal value, or 0
/// when it is absent or not a number that fits.
pub open spec fn instance_arg(args: Seq<(Seq<char>, Seq<char>)>) -> u32 {
    match crate::text::parse_unsigned(arg_text(args, "InstanceID"@, "0"@), u32::MAX as nat) {
        Some(n) => n as u32,
        None => 0,
    }
}

} // verus!
