//! JSON values as text: without spaces, with the members of an object in the order of their
//! names.
use vstd::prelude::*;
use vstd::string::*;

use crate::json::{array_model, Json, json_string, JsonV, Members, object_model, write_json_string};
use crate::order::{sort_text, sorted_text, text_keyed, text_sorting_commutes, with_text_images};
use crate::text::{cat3, decimal, i64_text, signed_decimal, u64_text};

verus! {

/// The first `n` texts with commas between them.
pub open spec fn comma_joined(texts: Seq<Seq<char>>, n: nat) -> Seq<char>
    decreases n,
{
    if n == 0 || n > texts.len() {
        Seq::empty()
    } else if n == 1 {
        texts[0]
    } else {
        comma_joined(texts, (n - 1) as nat) + ","@ + texts[n - 1]
    }
}

/// Members as text, each with its name.
pub open spec fn member_texts(members: Seq<(Seq<char>, Seq<char>)>) -> Seq<Seq<char>> {
    members.map_values(|m: (Seq<char>, Seq<char>)| json_string(m.0) + ":"@ + m.1)
}

/// A value as text. A name that an object has is one that it has once.
pub open spec fn json_text(v: JsonV) -> Seq<char>
    decreases v, 0nat,
{
    match v {
        JsonV::Null => "null"@,
        JsonV::Bool(b) => if b {
            "true"@
        } else {
            "false"@
        },
        JsonV::UInt(n) => decimal(n as nat),
        JsonV::NegInt(n) => signed_decimal(n as int),
        JsonV::Real(t) => t,
        JsonV::Str(t) => json_string(t),
        JsonV::Array(items) => "["@ + comma_joined(
            item_texts(items, items.len()),
            items.len(),
        ) + "]"@,
        JsonV::Object(members) => {
            let texts = member_texts(sorted_text(member_rows(members, members.len())));
            "{"@ + comma_joined(texts, texts.len()) + "}"@
        },
    }
}

/// The first `n` items of an array as text.
pub open spec fn item_texts(items: Seq<JsonV>, n: nat) -> Seq<Seq<char>>
    decreases items, n,
{
    if n == 0 || n > items.len() {
        Seq::empty()
    } else {
        item_texts(items, (n - 1) as nat).push(json_text(items[n - 1]))
    }
}

/// The first `n` members of an object, with their values as text.
pub open spec fn member_rows(members: Members, n: nat) -> Seq<(Seq<char>, Seq<char>)>
    decreases members, n,
{
    if n == 0 || n > members.len() {
        Seq::empty()
    } else {
        member_rows(members, (n - 1) as nat).push(
            (members[n - 1].0, json_text(members[n - 1].1)),
        )
    }
}

/// There are as many texts as items.
proof fn lemma_item_texts(items: Seq<JsonV>, n: nat)
    requires
        n <= items.len(),
    ensures
        item_texts(items, n).len() == n,
    decreases n,
{
    if n > 0 {
        lemma_item_texts(items, (n - 1) as nat);
    }
}

/// Puts commas between texts.
fn join_with_commas(texts: &Vec<String>) -> (r: String)
    ensures
        r@ == comma_joined(texts.deep_view(), texts@.len()),
{
    let ghost all = texts.deep_view();
    let mut out = String::new();
    let mut i: usize = 0;
    while i < texts.len()
        invariant
            i <= texts@.len(),
            all == texts.deep_view(),
            out@ == comma_joined(all, i as nat),
        decreases texts@.len() - i,
    {
        assert(all[i as int] == texts@[i as int]@);
        if i > 0 {
            out.append(",");
        }
        out.append(texts[i].as_str());
        assert(out@ =~= comma_joined(all, (i + 1) as nat));
        i += 1;
    }
    out
}

/// Sorts the members of an object by their names, and writes them.
fn write_members(rows: Vec<(String, String)>) -> (r: String)
    ensures
        r@ == "{"@ + comma_joined(
            member_texts(sorted_text(rows.deep_view())),
            sorted_text(rows.deep_view()).len(),
        ) + "}"@,
{
    let ghost given = rows@;
    let ghost wanted = sorted_text(rows.deep_view());
    let ghost models = |t: String| t@;
    let sorted = sort_text(rows);
    proof {
        text_sorting_commutes(text_keyed(given), models);
        assert(with_text_images(text_keyed(given), models) =~= rows.deep_view());
        assert(with_text_images(text_keyed(sorted@), models) == wanted);
        assert(sorted.deep_view() =~= with_text_images(text_keyed(sorted@), models));
    }
    let ghost texts = member_texts(wanted);
    let mut out: Vec<String> = Vec::new();
    let mut i: usize = 0;
    while i < sorted.len()
        invariant
            i <= sorted@.len(),
            sorted.deep_view() == wanted,
            texts == member_texts(wanted),
            out@.len() == i,
            forall|k: int| 0 <= k < i ==> (#[trigger] out@[k])@ == texts[k],
        decreases sorted@.len() - i,
    {
        assert(wanted[i as int] == (sorted@[i as int].0@, sorted@[i as int].1@));
        let name = write_json_string(sorted[i].0.as_str());
        out.push(cat3(name.as_str(), ":", sorted[i].1.as_str()));
        i += 1;
    }
    assert(out.deep_view() =~= texts);
    let inner = join_with_commas(&out);
    cat3("{", inner.as_str(), "}")
}

/// Values as the text of an array that holds them.
pub fn write_items(items: &Vec<Json>) -> (r: String)
    ensures
        r@ == json_text(JsonV::Array(items.deep_view())),
    decreases items@,
{
    let ghost all = items.deep_view();
    let mut texts: Vec<String> = Vec::new();
    let mut i: usize = 0;
    while i < items.len()
        invariant
            i <= items@.len(),
            all == items.deep_view(),
            texts.deep_view() == item_texts(all, i as nat),
        decreases items@.len() - i,
    {
        assert(decreases_to!(items@ => items@[i as int]));
        assert(all[i as int] == items@[i as int]@);
        let text = items[i].to_text();
        let ghost before = texts.deep_view();
        texts.push(text);
        assert(texts.deep_view() =~= before.push(text@));
        i += 1;
    }
    proof {
        lemma_item_texts(all, all.len());
    }
    let inner = join_with_commas(&texts);
    cat3("[", inner.as_str(), "]")
}

impl Json {
    /// The value as text.
    pub fn to_text(&self) -> (r: String)
        ensures
            r@ == json_text(self@),
        decreases self,
    {
        broadcast use {array_model, object_model};

        match self {
            Json::Null => "null".to_owned(),
            Json::Bool(b) => if *b {
                "true".to_owned()
            } else {
                "false".to_owned()
            },
            Json::UInt(n) => u64_text(*n),
            Json::NegInt(n) => i64_text(*n),
            Json::Real(t) => t.clone(),
            Json::Str(t) => write_json_string(t.as_str()),
            Json::Array(items) => {
                assert(decreases_to!(*self => self->Array_0@));
                write_items(items)
            },
            Json::Object(members) => {
                let ghost all = members.deep_view();
                let mut rows: Vec<(String, String)> = Vec::new();
                let mut i: usize = 0;
                while i < members.len()
                    invariant
                        i <= members@.len(),
                        *self == Json::Object(*members),
                        all == members.deep_view(),
                        rows.deep_view() == member_rows(all, i as nat),
                    decreases members@.len() - i,
                {
                    proof {
                        assert(self->Object_0 == *members);
                        assert(decreases_to!(*self => self->Object_0@));
                        assert(decreases_to!(members@ => members@[i as int]));
                        assert(decreases_to!(members@[i as int] => members@[i as int].1));
                        assert(all[i as int] == (members@[i as int].0@, members@[i as int].1@));
                    }
                    let text = members[i].1.to_text();
                    let ghost before = rows.deep_view();
                    rows.push((members[i].0.clone(), text));
                    assert(rows.deep_view() =~= before.push((all[i as int].0, text@)));
                    i += 1;
                }
                assert(all.len() == members@.len());
                write_members(rows)
            },
        }
    }
}

} // verus!
