//! How each record is laid out as a JSON document.
//!
//! A record is written as an object that holds one member for each field,
//! in the order of the fields and under the field's wire name. It is read
//! from any object that holds a member of the right kind under each of those
//! names; further members are passed over.
use crate::attributes::{distinct_names, Attributes};
use crate::json::{lemma_find_member_absent, lemma_find_member_at, Json, JsonView};
use crate::models::{
    CommonResponse, CommonResponseView, ContactItem, ContactItemView, DeleteContactReq,
    DeleteContactReqView, ListContactReq, ListContactReqView, ListContactResp,
    ListContactRespView, PaginateReq, PaginateResp, SaveContactReq, SaveContactReqView,
    SendEmailReq, SendEmailReqView,
};
use vstd::prelude::*;

verus! {

/// A type whose values are written to and read from JSON documents.
pub trait JsonCodec: View + Sized {
    /// The document that stands for a value.
    spec fn encode(value: Self::V) -> JsonView;

    /// The value that a document stands for, where it stands for one.
    spec fn decode(json: JsonView) -> Option<Self::V>;

    fn to_json(&self) -> (json: Json)
        ensures
            json@ == Self::encode(self@),
    ;

    fn from_json(json: &Json) -> (r: Option<Self>)
        ensures
            match r {
                Some(value) => Self::decode(json@) == Some(value@),
                None => Self::decode(json@) is None,
            },
    ;
}

/// A member that holds a string.
pub open spec fn text_pair(key: Seq<char>, text: Seq<char>) -> (Seq<char>, JsonView) {
    (key, JsonView::String(text))
}

/// A member that holds a whole number.
pub open spec fn int_pair(key: Seq<char>, n: int) -> (Seq<char>, JsonView) {
    (key, JsonView::Int(n))
}

/// A member that holds `true` or `false`.
pub open spec fn bool_pair(key: Seq<char>, b: bool) -> (Seq<char>, JsonView) {
    (key, JsonView::Bool(b))
}

/// The member called `key`, unless there is none or it is `null`.
pub open spec fn optional_member(json: JsonView, key: Seq<char>) -> Option<JsonView> {
    match json.member(key) {
        Some(JsonView::Null) => None,
        found => found,
    }
}

/// The smallest `i32`.
pub open spec fn i32_low() -> int {
    i32::MIN as int
}

/// The largest `i32`.
pub open spec fn i32_high() -> int {
    i32::MAX as int
}

/// The smallest `i64`.
pub open spec fn i64_low() -> int {
    i64::MIN as int
}

/// The largest `i64`.
pub open spec fn i64_high() -> int {
    i64::MAX as int
}

fn bool_entry(key: &str, b: bool) -> (entry: (String, Json))
    ensures
        (entry.0@, entry.1@) == bool_pair(key@, b),
{
    (key.to_owned(), Json::Bool(b))
}

fn optional_member_of<'a>(json: &'a Json, key: &str) -> (r: Option<&'a Json>)
    ensures
        match r {
            Some(found) => optional_member(json@, key@) == Some(found@),
            None => optional_member(json@, key@) is None,
        },
{
    match json.member(key) {
        Some(Json::Null) => None,
        found => found,
    }
}

fn text_entry(key: &str, text: &String) -> (entry: (String, Json))
    ensures
        (entry.0@, entry.1@) == text_pair(key@, text@),
{
    (key.to_owned(), Json::String(text.clone()))
}

fn int_entry(key: &str, n: i64) -> (entry: (String, Json))
    ensures
        (entry.0@, entry.1@) == int_pair(key@, n as int),
{
    (key.to_owned(), Json::Int(n))
}

/// A document stands for itself.
impl JsonCodec for Json {
    open spec fn encode(value: JsonView) -> JsonView {
        value
    }

    open spec fn decode(json: JsonView) -> Option<JsonView> {
        Some(json)
    }

    fn to_json(&self) -> (json: Json) {
        self.clone()
    }

    fn from_json(json: &Json) -> (r: Option<Json>) {
        Some(json.clone())
    }
}

impl JsonCodec for SendEmailReq {
    open spec fn encode(value: SendEmailReqView) -> JsonView {
        JsonView::Object(
            seq![
                text_pair("from"@, value.from),
                text_pair("to"@, value.to),
                text_pair("subject"@, value.subject),
                text_pair("body"@, value.body),
            ],
        )
    }

    open spec fn decode(json: JsonView) -> Option<SendEmailReqView> {
        match (
            json.text_member("from"@),
            json.text_member("to"@),
            json.text_member("subject"@),
            json.text_member("body"@),
        ) {
            (Some(from), Some(to), Some(subject), Some(body)) => Some(
                SendEmailReqView { from, to, subject, body },
            ),
            _ => None,
        }
    }

    fn to_json(&self) -> (json: Json) {
        let members = vec![
            text_entry("from", &self.from),
            text_entry("to", &self.to),
            text_entry("subject", &self.subject),
            text_entry("body", &self.body),
        ];
        let json = Json::Object(members);
        assert(json@->Object_0 =~= Self::encode(self@)->Object_0);
        json
    }

    fn from_json(json: &Json) -> (r: Option<SendEmailReq>) {
        let from = match json.text_member("from") {
            Some(text) => text,
            None => return None,
        };
        let to = match json.text_member("to") {
            Some(text) => text,
            None => return None,
        };
        let subject = match json.text_member("subject") {
            Some(text) => text,
            None => return None,
        };
        let body = match json.text_member("body") {
            Some(text) => text,
            None => return None,
        };
        Some(SendEmailReq { from, to, subject, body })
    }
}

/// An email that is written and read again is the same email.
pub proof fn lemma_send_email_req_round_trip(value: SendEmailReqView)
    ensures
        SendEmailReq::decode(SendEmailReq::encode(value)) == Some(value),
{
    reveal_strlit("from");
    reveal_strlit("to");
    reveal_strlit("subject");
    reveal_strlit("body");
    let members = SendEmailReq::encode(value)->Object_0;
    assert("from"@[0] != "body"@[0]);
    assert(members[0].0 == "from"@);
    assert(members[1].0 == "to"@);
    assert(members[2].0 == "subject"@);
    assert(members[3].0 == "body"@);
    lemma_find_member_at(members, "from"@, 0);
    lemma_find_member_at(members, "to"@, 1);
    lemma_find_member_at(members, "subject"@, 2);
    lemma_find_member_at(members, "body"@, 3);
}

impl JsonCodec for PaginateReq {
    open spec fn encode(value: PaginateReq) -> JsonView {
        JsonView::Object(
            seq![int_pair("page"@, value.page as int), int_pair("pageSize"@, value.page_size as int)],
        )
    }

    open spec fn decode(json: JsonView) -> Option<PaginateReq> {
        match (
            json.int_member("page"@, i32_low(), i32_high()),
            json.int_member("pageSize"@, i32_low(), i32_high()),
        ) {
            (Some(page), Some(page_size)) => Some(
                PaginateReq { page: page as i32, page_size: page_size as i32 },
            ),
            _ => None,
        }
    }

    fn to_json(&self) -> (json: Json) {
        let members = vec![
            int_entry("page", self.page as i64),
            int_entry("pageSize", self.page_size as i64),
        ];
        let json = Json::Object(members);
        assert(json@->Object_0 =~= Self::encode(self@)->Object_0);
        json
    }

    fn from_json(json: &Json) -> (r: Option<PaginateReq>) {
        let page = match json.i32_member("page") {
            Some(n) => n,
            None => return None,
        };
        let page_size = match json.i32_member("pageSize") {
            Some(n) => n,
            None => return None,
        };
        Some(PaginateReq { page, page_size })
    }
}

/// A page position that is written and read again is the same.
pub proof fn lemma_paginate_req_round_trip(value: PaginateReq)
    ensures
        PaginateReq::decode(PaginateReq::encode(value)) == Some(value),
{
    reveal_strlit("page");
    reveal_strlit("pageSize");
    let members = PaginateReq::encode(value)->Object_0;
    assert(members[0].0 == "page"@);
    assert(members[1].0 == "pageSize"@);
    lemma_find_member_at(members, "page"@, 0);
    lemma_find_member_at(members, "pageSize"@, 1);
}

impl JsonCodec for PaginateResp {
    open spec fn encode(value: PaginateResp) -> JsonView {
        JsonView::Object(
            seq![
                int_pair("page"@, value.page as int),
                int_pair("pageSize"@, value.page_size as int),
                int_pair("totalCount"@, value.total_count as int),
            ],
        )
    }

    open spec fn decode(json: JsonView) -> Option<PaginateResp> {
        match (
            json.int_member("page"@, i32_low(), i32_high()),
            json.int_member("pageSize"@, i32_low(), i32_high()),
            json.int_member("totalCount"@, i64_low(), i64_high()),
        ) {
            (Some(page), Some(page_size), Some(total_count)) => Some(
                PaginateResp {
                    page: page as i32,
                    page_size: page_size as i32,
                    total_count: total_count as i64,
                },
            ),
            _ => None,
        }
    }

    fn to_json(&self) -> (json: Json) {
        let members = vec![
            int_entry("page", self.page as i64),
            int_entry("pageSize", self.page_size as i64),
            int_entry("totalCount", self.total_count),
        ];
        let json = Json::Object(members);
        assert(json@->Object_0 =~= Self::encode(self@)->Object_0);
        json
    }

    fn from_json(json: &Json) -> (r: Option<PaginateResp>) {
        let page = match json.i32_member("page") {
            Some(n) => n,
            None => return None,
        };
        let page_size = match json.i32_member("pageSize") {
            Some(n) => n,
            None => return None,
        };
        let total_count = match json.i64_member("totalCount") {
            Some(n) => n,
            None => return None,
        };
        Some(PaginateResp { page, page_size, total_count })
    }
}

/// A page position with its total that is written and read again is the same.
pub proof fn lemma_paginate_resp_round_trip(value: PaginateResp)
    ensures
        PaginateResp::decode(PaginateResp::encode(value)) == Some(value),
{
    reveal_strlit("page");
    reveal_strlit("pageSize");
    reveal_strlit("totalCount");
    let members = PaginateResp::encode(value)->Object_0;
    assert(members[0].0 == "page"@);
    assert(members[1].0 == "pageSize"@);
    assert(members[2].0 == "totalCount"@);
    lemma_find_member_at(members, "page"@, 0);
    lemma_find_member_at(members, "pageSize"@, 1);
    lemma_find_member_at(members, "totalCount"@, 2);
}

impl JsonCodec for ListContactReq {
    open spec fn encode(value: ListContactReqView) -> JsonView {
        JsonView::Object(
            seq![
                text_pair("appId"@, value.app_id),
                int_pair("page"@, value.page as int),
                int_pair("pageSize"@, value.page_size as int),
            ],
        )
    }

    open spec fn decode(json: JsonView) -> Option<ListContactReqView> {
        match (
            json.text_member("appId"@),
            json.int_member("page"@, i32_low(), i32_high()),
            json.int_member("pageSize"@, i32_low(), i32_high()),
        ) {
            (Some(app_id), Some(page), Some(page_size)) => Some(
                ListContactReqView { app_id, page: page as i32, page_size: page_size as i32 },
            ),
            _ => None,
        }
    }

    fn to_json(&self) -> (json: Json) {
        let members = vec![
            text_entry("appId", &self.app_id),
            int_entry("page", self.page as i64),
            int_entry("pageSize", self.page_size as i64),
        ];
        let json = Json::Object(members);
        assert(json@->Object_0 =~= Self::encode(self@)->Object_0);
        json
    }

    fn from_json(json: &Json) -> (r: Option<ListContactReq>) {
        let app_id = match json.text_member("appId") {
            Some(text) => text,
            None => return None,
        };
        let page = match json.i32_member("page") {
            Some(n) => n,
            None => return None,
        };
        let page_size = match json.i32_member("pageSize") {
            Some(n) => n,
            None => return None,
        };
        Some(ListContactReq { app_id, page, page_size })
    }
}

/// A request for a page that is written and read again is the same request.
pub proof fn lemma_list_contact_req_round_trip(value: ListContactReqView)
    ensures
        ListContactReq::decode(ListContactReq::encode(value)) == Some(value),
{
    reveal_strlit("appId");
    reveal_strlit("page");
    reveal_strlit("pageSize");
    let members = ListContactReq::encode(value)->Object_0;
    assert(members[0].0 == "appId"@);
    assert(members[1].0 == "page"@);
    assert(members[2].0 == "pageSize"@);
    lemma_find_member_at(members, "appId"@, 0);
    lemma_find_member_at(members, "page"@, 1);
    lemma_find_member_at(members, "pageSize"@, 2);
}

impl JsonCodec for DeleteContactReq {
    open spec fn encode(value: DeleteContactReqView) -> JsonView {
        JsonView::Object(
            seq![
                text_pair("emailAddress"@, value.email_address),
                text_pair("appId"@, value.app_id),
            ],
        )
    }

    open spec fn decode(json: JsonView) -> Option<DeleteContactReqView> {
        match (json.text_member("emailAddress"@), json.text_member("appId"@)) {
            (Some(email_address), Some(app_id)) => Some(
                DeleteContactReqView { email_address, app_id },
            ),
            _ => None,
        }
    }

    fn to_json(&self) -> (json: Json) {
        let members = vec![
            text_entry("emailAddress", &self.email_address),
            text_entry("appId", &self.app_id),
        ];
        let json = Json::Object(members);
        assert(json@->Object_0 =~= Self::encode(self@)->Object_0);
        json
    }

    fn from_json(json: &Json) -> (r: Option<DeleteContactReq>) {
        let email_address = match json.text_member("emailAddress") {
            Some(text) => text,
            None => return None,
        };
        let app_id = match json.text_member("appId") {
            Some(text) => text,
            None => return None,
        };
        Some(DeleteContactReq { email_address, app_id })
    }
}

/// A request to delete that is written and read again is the same request.
pub proof fn lemma_delete_contact_req_round_trip(value: DeleteContactReqView)
    ensures
        DeleteContactReq::decode(DeleteContactReq::encode(value)) == Some(value),
{
    reveal_strlit("emailAddress");
    reveal_strlit("appId");
    let members = DeleteContactReq::encode(value)->Object_0;
    assert(members[0].0 == "emailAddress"@);
    assert(members[1].0 == "appId"@);
    lemma_find_member_at(members, "emailAddress"@, 0);
    lemma_find_member_at(members, "appId"@, 1);
}

impl JsonCodec for ContactItem {
    open spec fn encode(value: ContactItemView) -> JsonView {
        JsonView::Object(
            seq![
                text_pair("status"@, value.status),
                text_pair("emailAddress"@, value.email_address),
                text_pair("language"@, value.language),
                text_pair("firstName"@, value.first_name),
                text_pair("lastName"@, value.last_name),
                text_pair("phoneNumber"@, value.phone_number),
                text_pair("birthday"@, value.birthday),
                text_pair("company"@, value.company),
                int_pair("vipLevel"@, value.vip_level as int),
                text_pair("amount"@, value.amount),
            ],
        )
    }

    open spec fn decode(json: JsonView) -> Option<ContactItemView> {
        if json.text_member("status"@) is Some && json.text_member("emailAddress"@) is Some
            && json.text_member("language"@) is Some && json.text_member("firstName"@) is Some
            && json.text_member("lastName"@) is Some && json.text_member("phoneNumber"@) is Some
            && json.text_member("birthday"@) is Some && json.text_member("company"@) is Some
            && json.int_member("vipLevel"@, i32_low(), i32_high()) is Some && json.text_member(
            "amount"@,
        ) is Some {
            Some(
                ContactItemView {
                    status: json.text_member("status"@)->0,
                    email_address: json.text_member("emailAddress"@)->0,
                    language: json.text_member("language"@)->0,
                    first_name: json.text_member("firstName"@)->0,
                    last_name: json.text_member("lastName"@)->0,
                    phone_number: json.text_member("phoneNumber"@)->0,
                    birthday: json.text_member("birthday"@)->0,
                    company: json.text_member("company"@)->0,
                    vip_level: json.int_member("vipLevel"@, i32_low(), i32_high())->0 as i32,
                    amount: json.text_member("amount"@)->0,
                },
            )
        } else {
            None
        }
    }

    fn to_json(&self) -> (json: Json) {
        let members = vec![
            text_entry("status", &self.status),
            text_entry("emailAddress", &self.email_address),
            text_entry("language", &self.language),
            text_entry("firstName", &self.first_name),
            text_entry("lastName", &self.last_name),
            text_entry("phoneNumber", &self.phone_number),
            text_entry("birthday", &self.birthday),
            text_entry("company", &self.company),
            int_entry("vipLevel", self.vip_level as i64),
            text_entry("amount", &self.amount),
        ];
        let json = Json::Object(members);
        assert(json@->Object_0 =~= Self::encode(self@)->Object_0);
        json
    }

    fn from_json(json: &Json) -> (r: Option<ContactItem>) {
        let status = match json.text_member("status") {
            Some(text) => text,
            None => return None,
        };
        let email_address = match json.text_member("emailAddress") {
            Some(text) => text,
            None => return None,
        };
        let language = match json.text_member("language") {
            Some(text) => text,
            None => return None,
        };
        let first_name = match json.text_member("firstName") {
            Some(text) => text,
            None => return None,
        };
        let last_name = match json.text_member("lastName") {
            Some(text) => text,
            None => return None,
        };
        let phone_number = match json.text_member("phoneNumber") {
            Some(text) => text,
            None => return None,
        };
        let birthday = match json.text_member("birthday") {
            Some(text) => text,
            None => return None,
        };
        let company = match json.text_member("company") {
            Some(text) => text,
            None => return None,
        };
        let vip_level = match json.i32_member("vipLevel") {
            Some(n) => n,
            None => return None,
        };
        let amount = match json.text_member("amount") {
            Some(text) => text,
            None => return None,
        };
        Some(
            ContactItem {
                status,
                email_address,
                language,
                first_name,
                last_name,
                phone_number,
                birthday,
                company,
                vip_level,
                amount,
            },
        )
    }
}

/// A contact that is written and read again is the same contact.
pub proof fn lemma_contact_item_round_trip(value: ContactItemView)
    ensures
        ContactItem::decode(ContactItem::encode(value)) == Some(value),
{
    reveal_strlit("status");
    reveal_strlit("emailAddress");
    reveal_strlit("language");
    reveal_strlit("firstName");
    reveal_strlit("lastName");
    reveal_strlit("phoneNumber");
    reveal_strlit("birthday");
    reveal_strlit("company");
    reveal_strlit("vipLevel");
    reveal_strlit("amount");
    assert("status"@[0] != "amount"@[0]);
    assert("language"@[2] != "lastName"@[2]);
    assert("language"@[0] != "birthday"@[0]);
    assert("language"@[0] != "vipLevel"@[0]);
    assert("lastName"@[0] != "birthday"@[0]);
    assert("lastName"@[0] != "vipLevel"@[0]);
    assert("birthday"@[0] != "vipLevel"@[0]);
    let members = ContactItem::encode(value)->Object_0;
    assert(members[0].0 == "status"@);
    assert(members[1].0 == "emailAddress"@);
    assert(members[2].0 == "language"@);
    assert(members[3].0 == "firstName"@);
    assert(members[4].0 == "lastName"@);
    assert(members[5].0 == "phoneNumber"@);
    assert(members[6].0 == "birthday"@);
    assert(members[7].0 == "company"@);
    assert(members[8].0 == "vipLevel"@);
    assert(members[9].0 == "amount"@);
    lemma_find_member_at(members, "status"@, 0);
    lemma_find_member_at(members, "emailAddress"@, 1);
    lemma_find_member_at(members, "language"@, 2);
    lemma_find_member_at(members, "firstName"@, 3);
    lemma_find_member_at(members, "lastName"@, 4);
    lemma_find_member_at(members, "phoneNumber"@, 5);
    lemma_find_member_at(members, "birthday"@, 6);
    lemma_find_member_at(members, "company"@, 7);
    lemma_find_member_at(members, "vipLevel"@, 8);
    lemma_find_member_at(members, "amount"@, 9);
}

/// The documents of a sequence of contacts.
pub open spec fn encode_contacts(contacts: Seq<ContactItemView>) -> Seq<JsonView> {
    Seq::new(contacts.len(), |i: int| ContactItem::encode(contacts[i]))
}

/// The contacts that a sequence of documents stands for, where every one of
/// them stands for a contact.
pub open spec fn decode_contacts(items: Seq<JsonView>) -> Option<Seq<ContactItemView>> {
    if forall|i: int| 0 <= i < items.len() ==> (#[trigger] ContactItem::decode(items[i])) is Some {
        Some(Seq::new(items.len(), |i: int| ContactItem::decode(items[i])->0))
    } else {
        None
    }
}

impl JsonCodec for ListContactResp {
    open spec fn encode(value: ListContactRespView) -> JsonView {
        JsonView::Object(
            seq![
                int_pair("page"@, value.page as int),
                int_pair("pageSize"@, value.page_size as int),
                int_pair("totalCount"@, value.total_count as int),
                ("data"@, JsonView::Array(encode_contacts(value.data))),
            ],
        )
    }

    open spec fn decode(json: JsonView) -> Option<ListContactRespView> {
        match (
            json.int_member("page"@, i32_low(), i32_high()),
            json.int_member("pageSize"@, i32_low(), i32_high()),
            json.int_member("totalCount"@, i64_low(), i64_high()),
            json.member("data"@),
        ) {
            (Some(page), Some(page_size), Some(total_count), Some(JsonView::Array(items))) => {
                match decode_contacts(items) {
                    Some(data) => Some(
                        ListContactRespView {
                            page: page as i32,
                            page_size: page_size as i32,
                            total_count: total_count as i64,
                            data,
                        },
                    ),
                    None => None,
                }
            },
            _ => None,
        }
    }

    fn to_json(&self) -> (json: Json) {
        let mut items: Vec<Json> = Vec::new();
        let mut i: usize = 0;
        while i < self.data.len()
            invariant
                i <= self.data.len(),
                items.len() == i,
                forall|k: int| 0 <= k < i ==> items[k]@ == ContactItem::encode(self.data[k]@),
            decreases self.data.len() - i,
        {
            items.push(self.data[i].to_json());
            i += 1;
        }
        let list = Json::Array(items);
        assert(list@->Array_0 =~= encode_contacts(self@.data));
        let members = vec![
            int_entry("page", self.page as i64),
            int_entry("pageSize", self.page_size as i64),
            int_entry("totalCount", self.total_count),
            ("data".to_owned(), list),
        ];
        let json = Json::Object(members);
        assert(json@->Object_0 =~= Self::encode(self@)->Object_0);
        json
    }

    fn from_json(json: &Json) -> (r: Option<ListContactResp>) {
        let page = match json.i32_member("page") {
            Some(n) => n,
            None => return None,
        };
        let page_size = match json.i32_member("pageSize") {
            Some(n) => n,
            None => return None,
        };
        let total_count = match json.i64_member("totalCount") {
            Some(n) => n,
            None => return None,
        };
        let items = match json.member("data") {
            Some(Json::Array(items)) => items,
            _ => return None,
        };
        let ghost documents = json@.member("data"@)->0->Array_0;
        let mut data: Vec<ContactItem> = Vec::new();
        let mut i: usize = 0;
        while i < items.len()
            invariant
                i <= items.len(),
                data.len() == i,
                json@.member("data"@) == Some(JsonView::Array(documents)),
                documents.len() == items.len(),
                forall|k: int| 0 <= k < items.len() ==> documents[k] == items[k]@,
                forall|k: int|
                    0 <= k < i ==> ContactItem::decode(#[trigger] documents[k]) == Some(data[k]@),
            decreases items.len() - i,
        {
            match ContactItem::from_json(&items[i]) {
                Some(contact) => data.push(contact),
                None => {
                    assert(ContactItem::decode(documents[i as int]) is None);
                    return None;
                },
            }
            i += 1;
        }
        let found = ListContactResp { page, page_size, total_count, data };
        assert(decode_contacts(documents) == Some(found@.data)) by {
            assert(decode_contacts(documents)->0 =~= found@.data);
        }
        Some(found)
    }
}

/// A page of contacts that is written and read again is the same page.
pub proof fn lemma_list_contact_resp_round_trip(value: ListContactRespView)
    ensures
        ListContactResp::decode(ListContactResp::encode(value)) == Some(value),
{
    reveal_strlit("page");
    reveal_strlit("pageSize");
    reveal_strlit("totalCount");
    reveal_strlit("data");
    assert("page"@[0] != "data"@[0]);
    let members = ListContactResp::encode(value)->Object_0;
    assert(members[0].0 == "page"@);
    assert(members[1].0 == "pageSize"@);
    assert(members[2].0 == "totalCount"@);
    assert(members[3].0 == "data"@);
    lemma_find_member_at(members, "page"@, 0);
    lemma_find_member_at(members, "pageSize"@, 1);
    lemma_find_member_at(members, "totalCount"@, 2);
    lemma_find_member_at(members, "data"@, 3);
    let items = encode_contacts(value.data);
    assert forall|i: int| 0 <= i < items.len() implies (#[trigger] ContactItem::decode(
        items[i],
    )) == Some(value.data[i]) by {
        lemma_contact_item_round_trip(value.data[i]);
    }
    assert(decode_contacts(items)->0 =~= value.data);
}

/// The members that stand for named strings.
pub open spec fn text_pairs(pairs: Seq<(Seq<char>, Seq<char>)>) -> Seq<(Seq<char>, JsonView)> {
    Seq::new(pairs.len(), |i: int| text_pair(pairs[i].0, pairs[i].1))
}

/// The named strings that the members of an object hold, where each of them
/// holds a string.
pub open spec fn texts_of(members: Seq<(Seq<char>, JsonView)>) -> Option<
    Seq<(Seq<char>, Seq<char>)>,
> {
    if forall|i: int| 0 <= i < members.len() ==> (#[trigger] members[i]).1 is String {
        Some(Seq::new(members.len(), |i: int| (members[i].0, members[i].1->String_0)))
    } else {
        None
    }
}

/// What a document says of the further attributes of a contact: `Some(None)`
/// where it has none, the attributes where it has an object of strings
/// under names that differ, and `None` where it has anything else under the
/// name `data`.
pub open spec fn decode_attributes(json: JsonView) -> Option<Option<Seq<(Seq<char>, Seq<char>)>>> {
    match optional_member(json, "data"@) {
        None => Some(None),
        Some(JsonView::Object(members)) => match texts_of(members) {
            Some(pairs) => if distinct_names(pairs) {
                Some(Some(pairs))
            } else {
                None
            },
            None => None,
        },
        Some(_) => None,
    }
}

impl JsonCodec for SaveContactReq {
    open spec fn encode(value: SaveContactReqView) -> JsonView {
        JsonView::Object(
            seq![text_pair("appId"@, value.app_id), text_pair("emailAddress"@, value.email_address)]
                + match value.data {
                Some(pairs) => seq![("data"@, JsonView::Object(text_pairs(pairs)))],
                None => seq![],
            },
        )
    }

    open spec fn decode(json: JsonView) -> Option<SaveContactReqView> {
        match (json.text_member("appId"@), json.text_member("emailAddress"@), decode_attributes(json)) {
            (Some(app_id), Some(email_address), Some(data)) => Some(
                SaveContactReqView { app_id, email_address, data },
            ),
            _ => None,
        }
    }

    fn to_json(&self) -> (json: Json) {
        let mut members = vec![
            text_entry("appId", &self.app_id),
            text_entry("emailAddress", &self.email_address),
        ];
        match &self.data {
            Some(attributes) => {
                let pairs = attributes.pairs();
                let mut written: Vec<(String, Json)> = Vec::new();
                let mut i: usize = 0;
                while i < pairs.len()
                    invariant
                        i <= pairs.len(),
                        written.len() == i,
                        forall|k: int|
                            0 <= k < i ==> (written[k].0@, written[k].1@) == text_pair(
                                pairs[k].0@,
                                pairs[k].1@,
                            ),
                    decreases pairs.len() - i,
                {
                    written.push((pairs[i].0.clone(), Json::String(pairs[i].1.clone())));
                    i += 1;
                }
                let object = Json::Object(written);
                assert(object@->Object_0 =~= text_pairs(self@.data->0));
                members.push(("data".to_owned(), object));
            },
            None => {},
        }
        let json = Json::Object(members);
        assert(json@->Object_0 =~= Self::encode(self@)->Object_0);
        json
    }

    fn from_json(json: &Json) -> (r: Option<SaveContactReq>) {
        let app_id = match json.text_member("appId") {
            Some(text) => text,
            None => return None,
        };
        let email_address = match json.text_member("emailAddress") {
            Some(text) => text,
            None => return None,
        };
        let data = match optional_member_of(json, "data") {
            None => None,
            Some(Json::Object(members)) => {
                let ghost documents = optional_member(json@, "data"@)->0->Object_0;
                let mut attributes = Attributes::new();
                let mut i: usize = 0;
                while i < members.len()
                    invariant
                        i <= members.len(),
                        attributes@.len() == i,
                        distinct_names(attributes@),
                        optional_member(json@, "data"@) == Some(JsonView::Object(documents)),
                        documents.len() == members.len(),
                        forall|k: int|
                            0 <= k < members.len() ==> documents[k] == (
                                members[k].0@,
                                members[k].1@,
                            ),
                        forall|k: int|
                            0 <= k < i ==> (#[trigger] documents[k]).1 is String && documents[k]
                                == text_pair(attributes@[k].0, attributes@[k].1),
                    decreases members.len() - i,
                {
                    match &members[i].1 {
                        Json::String(text) => {
                            if attributes.get(members[i].0.as_str()).is_some() {
                                proof {
                                    let name = documents[i as int].0;
                                    let k = choose|k: int|
                                        0 <= k < attributes@.len() && (#[trigger] attributes@[k]).0
                                            == name;
                                    assert(documents[k].1 is String);
                                    if texts_of(documents) is Some {
                                        let pairs = texts_of(documents)->0;
                                        assert(pairs[k].0 == pairs[i as int].0);
                                    }
                                }
                                return None;
                            }
                            let ghost earlier = attributes@;
                            attributes.insert(members[i].0.clone(), text.clone());
                            assert(attributes@ == earlier.push((members[i as int].0@, text@)));
                        },
                        _ => {
                            assert(!(documents[i as int].1 is String));
                            return None;
                        },
                    }
                    i += 1;
                }
                proof {
                    assert(texts_of(documents) is Some);
                    assert(texts_of(documents)->0 =~= attributes@);
                }
                Some(attributes)
            },
            Some(_) => return None,
        };
        Some(SaveContactReq { app_id, email_address, data })
    }
}

/// A contact to save that is written and read again is the same. Among its
/// further attributes no name occurs twice, as in every value of the type.
pub proof fn lemma_save_contact_req_round_trip(value: SaveContactReqView)
    requires
        value.data matches Some(pairs) ==> distinct_names(pairs),
    ensures
        SaveContactReq::decode(SaveContactReq::encode(value)) == Some(value),
{
    reveal_strlit("appId");
    reveal_strlit("emailAddress");
    reveal_strlit("data");
    let members = SaveContactReq::encode(value)->Object_0;
    assert(members[0].0 == "appId"@);
    assert(members[1].0 == "emailAddress"@);
    lemma_find_member_at(members, "appId"@, 0);
    lemma_find_member_at(members, "emailAddress"@, 1);
    match value.data {
        Some(pairs) => {
            assert(members[2].0 == "data"@);
            lemma_find_member_at(members, "data"@, 2);
            assert(texts_of(text_pairs(pairs))->0 =~= pairs);
        },
        None => {
            lemma_find_member_absent(members, "data"@);
        },
    }
}

/// What a document says of the payload of an envelope: `Some(None)` where
/// it has none, the payload where the member called `data` stands for one,
/// and `None` where that member stands for none.
pub open spec fn decode_payload<T: JsonCodec>(json: JsonView) -> Option<Option<T::V>> {
    match optional_member(json, "data"@) {
        None => Some(None),
        Some(document) => match T::decode(document) {
            Some(payload) => Some(Some(payload)),
            None => None,
        },
    }
}

impl<T: JsonCodec> JsonCodec for CommonResponse<T> {
    open spec fn encode(value: CommonResponseView<T::V>) -> JsonView {
        JsonView::Object(
            seq![
                text_pair("requestId"@, value.request_id),
                int_pair("code"@, value.code as int),
                bool_pair("success"@, value.success),
                text_pair("message"@, value.message),
                int_pair("ts"@, value.ts as int),
            ] + match value.data {
                Some(payload) => seq![("data"@, T::encode(payload))],
                None => seq![],
            },
        )
    }

    open spec fn decode(json: JsonView) -> Option<CommonResponseView<T::V>> {
        match (
            json.text_member("requestId"@),
            json.int_member("code"@, i32_low(), i32_high()),
            json.bool_member("success"@),
            json.text_member("message"@),
            json.int_member("ts"@, i64_low(), i64_high()),
            decode_payload::<T>(json),
        ) {
            (Some(request_id), Some(code), Some(success), Some(message), Some(ts), Some(data)) => {
                Some(
                    CommonResponseView {
                        request_id,
                        code: code as i32,
                        success,
                        message,
                        ts: ts as i64,
                        data,
                    },
                )
            },
            _ => None,
        }
    }

    fn to_json(&self) -> (json: Json) {
        let mut members = vec![
            text_entry("requestId", &self.request_id),
            int_entry("code", self.code as i64),
            bool_entry("success", self.success),
            text_entry("message", &self.message),
            int_entry("ts", self.ts),
        ];
        match &self.data {
            Some(payload) => members.push(("data".to_owned(), payload.to_json())),
            None => {},
        }
        let json = Json::Object(members);
        assert(json@->Object_0 =~= Self::encode(self@)->Object_0);
        json
    }

    fn from_json(json: &Json) -> (r: Option<CommonResponse<T>>) {
        let request_id = match json.text_member("requestId") {
            Some(text) => text,
            None => return None,
        };
        let code = match json.i32_member("code") {
            Some(n) => n,
            None => return None,
        };
        let success = match json.bool_member("success") {
            Some(b) => b,
            None => return None,
        };
        let message = match json.text_member("message") {
            Some(text) => text,
            None => return None,
        };
        let ts = match json.i64_member("ts") {
            Some(n) => n,
            None => return None,
        };
        let data = match optional_member_of(json, "data") {
            None => None,
            Some(document) => match T::from_json(document) {
                Some(payload) => Some(payload),
                None => return None,
            },
        };
        Some(CommonResponse { request_id, code, success, message, ts, data })
    }
}

/// An envelope that is written and read again is the same envelope, where
/// its payload, if it has one, is written as something other than `null` and
/// is itself read again as the same.
pub proof fn lemma_common_response_round_trip<T: JsonCodec>(value: CommonResponseView<T::V>)
    requires
        value.data matches Some(payload) ==> T::encode(payload) != JsonView::Null && T::decode(
            T::encode(payload),
        ) == Some(payload),
    ensures
        CommonResponse::<T>::decode(CommonResponse::<T>::encode(value)) == Some(value),
{
    reveal_strlit("requestId");
    reveal_strlit("code");
    reveal_strlit("success");
    reveal_strlit("message");
    reveal_strlit("ts");
    reveal_strlit("data");
    assert("success"@[0] != "message"@[0]);
    assert("code"@[0] != "data"@[0]);
    let members = CommonResponse::<T>::encode(value)->Object_0;
    assert(members[0].0 == "requestId"@);
    assert(members[1].0 == "code"@);
    assert(members[2].0 == "success"@);
    assert(members[3].0 == "message"@);
    assert(members[4].0 == "ts"@);
    lemma_find_member_at(members, "requestId"@, 0);
    lemma_find_member_at(members, "code"@, 1);
    lemma_find_member_at(members, "success"@, 2);
    lemma_find_member_at(members, "message"@, 3);
    lemma_find_member_at(members, "ts"@, 4);
    match value.data {
        Some(payload) => {
            assert(members[5].0 == "data"@);
            lemma_find_member_at(members, "data"@, 5);
        },
        None => {
            lemma_find_member_absent(members, "data"@);
        },
    }
}

/// An envelope with a payload that is not interpreted is read again as the
/// same envelope, unless the payload is `null`: that one is read as no payload.
pub proof fn lemma_envelope_round_trip(value: CommonResponseView<JsonView>)
    requires
        value.data != Some(JsonView::Null),
    ensures
        CommonResponse::<Json>::decode(CommonResponse::<Json>::encode(value)) == Some(value),
{
    lemma_common_response_round_trip::<Json>(value);
}

} // verus!
