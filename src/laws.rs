use vstd::prelude::*;

use crate::chat::{BanChatMemberRequestView, ChatView};
use crate::json::{keys_distinct, lemma_present_lacks, lookup, opt_string, present, Json, WireFault};
use crate::message::{
    EditMessageCaptionRequestView, EditMessageReplyMarkupRequestView, EditMessageTextRequestView,
};

verus! {

/// A field left absent is not written at all: no entry of the object carries
/// its key, so it never appears as `null` either.
pub proof fn law_absent_field_omitted(fields: Seq<(Seq<char>, Option<Json>)>, i: int)
    requires
        keys_distinct(fields),
        0 <= i < fields.len(),
        fields[i].1 is None,
    ensures
        forall|k: int|
            0 <= k < present(fields).len() ==> #[trigger] present(fields)[k].0 != fields[i].0,
{
    assert forall|j: int| 0 <= j < fields.len() implies #[trigger] fields[j].0 != fields[i].0
        || fields[j].1 is None by {
        if j != i {
            assert(fields[j].0 != fields[i].0);
        }
    }
    lemma_present_lacks(fields, fields[i].0);
}

/// A ban without an end date is written without an `until_date` key.
pub proof fn law_ban_without_until_date(r: BanChatMemberRequestView)
    requires
        r.until_date is None,
    ensures
        forall|k: int|
            0 <= k < present(r.fields()).len() ==> #[trigger] present(r.fields())[k].0
                != "until_date"@,
        r.json() == Json::Object(present(r.fields())),
{
    r.lemma_keys_distinct();
    assert(r.fields()[2].0 == "until_date"@);
    law_absent_field_omitted(r.fields(), 2);
}

proof fn lemma_present_append(fields: Seq<(Seq<char>, Option<Json>)>, key: Seq<char>, v: Json)
    ensures
        present(fields + seq![(key, Some(v))]) == present(fields).push((key, v)),
{
    let all = fields + seq![(key, Some(v))];
    assert(all.drop_last() =~= fields);
    assert(all.last() == (key, Some(v)));
}

/// The keys of an edit request's base, none of which is `base`.
proof fn lemma_base_has_no_wrapper_key(r: EditMessageTextRequestView)
    ensures
        forall|i: int| 0 <= i < r.base.fields().len() ==> #[trigger] r.base.fields()[i].0 != "base"@,
{
    reveal_strlit("base");
    reveal_strlit("chat_id");
    reveal_strlit("message_id");
    reveal_strlit("inline_message_id");
    reveal_strlit("parse_mode");
    reveal_strlit("reply_markup");
    assert("base"@.len() == 4);
    assert("chat_id"@.len() == 7);
    assert("message_id"@.len() == 10);
    assert("inline_message_id"@.len() == 17);
    assert("parse_mode"@.len() == 10);
    assert("reply_markup"@.len() == 12);
    let fs = r.base.fields();
    assert(fs.len() == 5);
    assert(fs[0].0 == "chat_id"@);
    assert(fs[1].0 == "message_id"@);
    assert(fs[2].0 == "inline_message_id"@);
    assert(fs[3].0 == "parse_mode"@);
    assert(fs[4].0 == "reply_markup"@);
}

/// An edit of a text is one flat object: the entries of its base, then its
/// text, with no `base` key wrapping the shared fields.
pub proof fn law_edit_text_is_flat(r: EditMessageTextRequestView)
    ensures
        r.json() == Json::Object(
            present(r.base.fields()).push(("text"@, Json::Str(r.text))),
        ),
        r.base.json() == Json::Object(present(r.base.fields())),
        lookup(present(r.fields()), "base"@) is None,
{
    lemma_present_append(r.base.fields(), "text"@, Json::Str(r.text));
    lemma_base_has_no_wrapper_key(r);
    reveal_strlit("base");
    reveal_strlit("text");
    assert("text"@[0] == 't' && "base"@[0] == 'b');
    let fs = r.fields();
    assert forall|i: int| 0 <= i < fs.len() implies #[trigger] fs[i].0 != "base"@ || fs[i].1 is None by {
        if i < r.base.fields().len() {
            assert(fs[i] == r.base.fields()[i]);
        } else {
            assert(fs[i].0 == "text"@);
        }
    }
    lemma_present_lacks(fs, "base"@);
}

/// An edit of a caption is one flat object: the entries of its base, then its
/// caption; the shared fields are written as for an edit of a text.
pub proof fn law_edit_caption_is_flat(r: EditMessageCaptionRequestView)
    ensures
        r.json() == Json::Object(
            present(r.base.fields()).push(("caption"@, Json::Str(r.caption))),
        ),
{
    lemma_present_append(r.base.fields(), "caption"@, Json::Str(r.caption));
}

/// An edit of the reply markup is written as its base alone.
pub proof fn law_edit_reply_markup_is_base(r: EditMessageReplyMarkupRequestView)
    ensures
        r.json() == r.base.json(),
{
    assert(r.fields() =~= r.base.fields());
}

/// A chat without an `id` is not read: the error names the field and the type.
pub proof fn law_chat_requires_id(es: Seq<(Seq<char>, Json)>)
    requires
        lookup(es, "id"@) is None,
    ensures
        ChatView::decode(Json::Object(es)) == Err::<ChatView, WireFault>(
            WireFault::MissingField { owner: "Chat"@, field: "id"@ },
        ),
{
}

/// An absent optional field causes no error and is read as absent.
pub proof fn law_chat_absent_title(es: Seq<(Seq<char>, Json)>)
    requires
        lookup(es, "title"@) is None,
    ensures
        opt_string(es, "title"@) == Ok::<Option<Seq<char>>, WireFault>(None),
        ChatView::decode(Json::Object(es)) is Ok ==> ChatView::decode(
            Json::Object(es),
        )->Ok_0.title is None,
{
}

} // verus!
