//! The JSON texts that the client and the server exchange, said of the values
//! that they carry.

use vstd::prelude::*;

use crate::inputs::cli::ActionView;
use crate::inputs::wire::{RegisterRes, ServiceGroup, UnregisterRes};

verus! {

// ---------------------------------------------------------------------------
// JSON strings
// ---------------------------------------------------------------------------

/// A text without quotes, backslashes and control characters stands between
/// quotes as it is.
pub proof fn plain_text_is_only_quoted(s: Seq<char>)
    requires
        forall|i: int|
            0 <= i < s.len() ==> ' ' <= #[trigger] s[i] && s[i] != '"' && s[i] != '\\',
    ensures
        crate::json::escaped_all(s) == s,
        crate::json::string_json(s) == seq!['"'] + s + seq!['"'],
    decreases s.len(),
{
    if s.len() > 0 {
        let shorter = s.drop_last();
        assert forall|i: int| 0 <= i < shorter.len() implies ' ' <= #[trigger] shorter[i]
            && shorter[i] != '"' && shorter[i] != '\\' by {
            assert(shorter[i] == s[i]);
        }
        plain_text_is_only_quoted(shorter);
        assert(' ' <= s[s.len() - 1]);
        assert(crate::json::escaped(s.last()) =~= seq![s.last()]);
        assert(crate::json::escaped_all(s) =~= s);
    } else {
        assert(crate::json::escaped_all(s) =~= s);
    }
}

/// Characters are escaped one by one: what stands for two texts together is what
/// stands for the one and then what stands for the other.
pub proof fn characters_are_escaped_one_by_one(a: Seq<char>, b: Seq<char>, c: char)
    ensures
        crate::json::escaped_all(a + b) == crate::json::escaped_all(a) + crate::json::escaped_all(
            b,
        ),
        crate::json::escaped_all(seq![c]) == crate::json::escaped(c),
        crate::json::escaped_all(seq![]) == Seq::<char>::empty(),
    decreases b.len(),
{
    reveal_with_fuel(crate::json::escaped_all, 2);
    assert(seq![c].drop_last() =~= Seq::<char>::empty());
    assert(crate::json::escaped_all(seq![c]) =~= crate::json::escaped(c));
    if b.len() == 0 {
        assert(a + b =~= a);
        assert(crate::json::escaped_all(a) + crate::json::escaped_all(b)
            =~= crate::json::escaped_all(a));
    } else {
        characters_are_escaped_one_by_one(a, b.drop_last(), c);
        assert((a + b).drop_last() =~= a + b.drop_last());
        assert((a + b).last() == b.last());
        assert(crate::json::escaped_all(a + b) =~= crate::json::escaped_all(a)
            + crate::json::escaped_all(b));
    }
}

/// Quotes, backslashes and the common control characters have short escapes;
/// every other control character is given by its number, in four hexadecimal
/// digits.
pub proof fn special_characters_have_their_escapes(c: char)
    ensures
        crate::json::escaped('"') == seq!['\\', '"'],
        crate::json::escaped('\\') == seq!['\\', '\\'],
        crate::json::escaped('\n') == seq!['\\', 'n'],
        crate::json::escaped('\r') == seq!['\\', 'r'],
        crate::json::escaped('\t') == seq!['\\', 't'],
        crate::json::escaped('\u{8}') == seq!['\\', 'b'],
        crate::json::escaped('\u{c}') == seq!['\\', 'f'],
        ' ' > c && c != '\n' && c != '\r' && c != '\t' && c != '\u{8}' && c != '\u{c}'
            ==> crate::json::escaped(c) == seq![
            '\\',
            'u',
            '0',
            '0',
            "01"@[c as int / 16],
            "0123456789abcdef"@[c as int % 16],
        ],
{
    reveal_strlit("01");
    reveal_strlit("0123456789abcdef");
}

// ---------------------------------------------------------------------------
// Responses
// ---------------------------------------------------------------------------

/// The response to a registration is an object with the id in decimal, and reads
/// as that id and no other.
pub proof fn register_response_is_an_id(res: RegisterRes, other: RegisterRes, body: Seq<char>)
    ensures
        crate::json::number_object_json("id"@, res.id) == "{\"id\":"@ + crate::text::decimal(
            res.id as nat,
        ) + "}"@,
        res.carried_by(body) <==> crate::json::field_json(body, "id"@) == Some(
            crate::text::decimal(res.id as nat),
        ),
        res.carried_by(body) && other.carried_by(body) ==> res.id == other.id,
{
    reveal_strlit("id");
    reveal_strlit("{");
    reveal_strlit(":");
    reveal_strlit("{\"id\":");
    plain_text_is_only_quoted("id"@);
    assert(crate::json::number_object_json("id"@, res.id) =~= "{\"id\":"@ + crate::text::decimal(
        res.id as nat,
    ) + "}"@);
    crate::text::decimal_reads_back(res.id);
    crate::text::decimal_reads_back(other.id);
}

/// The response to a deregistration is an object with `true` or `false`, and
/// reads as that and not as the other.
pub proof fn unregister_response_is_true_or_false(
    res: UnregisterRes,
    other: UnregisterRes,
    body: Seq<char>,
)
    ensures
        crate::json::bool_object_json("success"@, true) == "{\"success\":true}"@,
        crate::json::bool_object_json("success"@, false) == "{\"success\":false}"@,
        res.carried_by(body) <==> crate::json::field_json(body, "success"@) == Some(
            if res.success {
                "true"@
            } else {
                "false"@
            },
        ),
        res.carried_by(body) && other.carried_by(body) ==> res.success == other.success,
{
    reveal_strlit("success");
    reveal_strlit("true");
    reveal_strlit("false");
    reveal_strlit("{");
    reveal_strlit("}");
    reveal_strlit(":");
    reveal_strlit("{\"success\":true}");
    reveal_strlit("{\"success\":false}");
    assert("true"@.len() != "false"@.len());
    plain_text_is_only_quoted("success"@);
    assert(crate::json::bool_object_json("success"@, true) =~= "{\"success\":true}"@);
    assert(crate::json::bool_object_json("success"@, false) =~= "{\"success\":false}"@);
}

// ---------------------------------------------------------------------------
// Requests
// ---------------------------------------------------------------------------

/// The body of a registration holds the description, the name and the address,
/// each under its key, and reads as them.
pub proof fn register_request_holds_its_three_texts(
    bind: Seq<char>,
    name: Seq<char>,
    url: Seq<char>,
    description: Seq<char>,
    body: Seq<char>,
)
    ensures
        ({
            let action = ActionView::Register { bind, name, url, description };
            &&& crate::inputs::cli::request_body(action) == "{\"description\":"@
                + crate::json::string_json(description) + ",\"name\":"@ + crate::json::string_json(
                name,
            ) + ",\"url\":"@ + crate::json::string_json(url) + "}"@
            &&& crate::inputs::cli::body_carries(body, action) ==> {
                &&& crate::json::field_json(body, "name"@) == Some(crate::json::string_json(name))
                &&& crate::json::field_json(body, "url"@) == Some(crate::json::string_json(url))
                &&& crate::json::field_json(body, "description"@) == Some(
                    crate::json::string_json(description),
                )
            }
        }),
{
    reveal_strlit("description");
    reveal_strlit("name");
    reveal_strlit("url");
    reveal_strlit("{");
    reveal_strlit(",");
    reveal_strlit(":");
    reveal_strlit("{\"description\":");
    reveal_strlit(",\"name\":");
    reveal_strlit(",\"url\":");
    plain_text_is_only_quoted("description"@);
    plain_text_is_only_quoted("name"@);
    plain_text_is_only_quoted("url"@);
    let d = crate::json::string_json(description);
    let n = crate::json::string_json(name);
    let u = crate::json::string_json(url);
    assert("{"@ + crate::json::member_json("description"@, d) =~= "{\"description\":"@ + d);
    assert(","@ + crate::json::member_json("name"@, n) =~= ",\"name\":"@ + n);
    assert(","@ + crate::json::member_json("url"@, u) =~= ",\"url\":"@ + u);
    let head = "{"@ + crate::json::member_json("description"@, d);
    assert(head + ","@ + crate::json::member_json("name"@, n) =~= head + (","@
        + crate::json::member_json("name"@, n)));
    let two = head + (",\"name\":"@ + n);
    assert(two =~= "{\"description\":"@ + d + ",\"name\":"@ + n);
    assert(two + ","@ + crate::json::member_json("url"@, u) =~= two + (","@
        + crate::json::member_json("url"@, u)));
    assert(two + (",\"url\":"@ + u) =~= two + ",\"url\":"@ + u);
}

/// The body of a deregistration holds the id in decimal, and reads as it.
pub proof fn unregister_request_holds_the_id(bind: Seq<char>, id: u64, body: Seq<char>)
    ensures
        ({
            let action = ActionView::Unregister { bind, id };
            &&& crate::inputs::cli::request_body(action) == "{\"id\":"@ + crate::text::decimal(
                id as nat,
            ) + "}"@
            &&& crate::inputs::cli::body_carries(body, action) ==> crate::json::field_json(
                body,
                "id"@,
            ) == Some(crate::text::decimal(id as nat))
        }),
{
    register_response_is_an_id(RegisterRes { id }, RegisterRes { id }, body);
}

// ---------------------------------------------------------------------------
// Views
// ---------------------------------------------------------------------------

/// The model of a group shows its description and the address of each instance.
pub proof fn group_is_shown_in_full(group: ServiceGroup, id: u64)
    ensures
        group@.description == group.description@,
        group@.services.contains_key(id) <==> group.services@.contains_key(id),
        group.services@.contains_key(id) ==> group@.services[id] == group.services@[id].url@,
{
}

} // verus!
