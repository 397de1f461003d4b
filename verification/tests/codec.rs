use sendflare_sdk::{
    Attributes, CommonResponse, ContactItem, DeleteContactReq, Json, JsonCodec, ListContactReq,
    ListContactResp, PaginateReq, PaginateResp, SaveContactReq, SendEmailReq, SendEmailResp,
};

fn text(s: &str) -> Json {
    Json::String(s.to_string())
}

fn member(name: &str, value: Json) -> (String, Json) {
    (name.to_string(), value)
}

fn attributes(pairs: &[(&str, &str)]) -> Attributes {
    let mut made = Attributes::new();
    for (name, value) in pairs {
        made.insert(name.to_string(), value.to_string());
    }
    made
}

fn contact(email: &str, level: i32) -> ContactItem {
    ContactItem {
        status: "subscribed".to_string(),
        email_address: email.to_string(),
        language: "en".to_string(),
        first_name: "Ada".to_string(),
        last_name: "Lovelace".to_string(),
        phone_number: "+44 20 7946 0000".to_string(),
        birthday: "1815-12-10".to_string(),
        company: "Analytical Engines".to_string(),
        vip_level: level,
        amount: "12.50".to_string(),
    }
}

/// Writes a value as text, reads the text again, and gives what was read.
fn through_text<T: JsonCodec>(value: &T) -> Option<T> {
    let text = value.to_json().render();
    T::from_json(&Json::parse(&text).expect("the text that was written"))
}

#[test]
fn paginate_req_wire_form() {
    let value = PaginateReq { page: 2, page_size: 50 };
    assert_eq!(value.to_json().render(), "{\"page\":2,\"pageSize\":50}");
    assert_eq!(through_text(&value), Some(value));
}

#[test]
fn paginate_resp_wire_form() {
    let value = PaginateResp { page: 2, page_size: 50, total_count: 5000000000 };
    assert_eq!(
        value.to_json().render(),
        "{\"page\":2,\"pageSize\":50,\"totalCount\":5000000000}"
    );
    assert_eq!(through_text(&value), Some(value));
}

#[test]
fn send_email_req_wire_form() {
    let value = SendEmailReq {
        from: "a@x.com".to_string(),
        to: "b@x.com".to_string(),
        subject: "hi".to_string(),
        body: "hello\n\"world\"".to_string(),
    };
    assert_eq!(
        value.to_json(),
        Json::Object(vec![
            member("from", text("a@x.com")),
            member("to", text("b@x.com")),
            member("subject", text("hi")),
            member("body", text("hello\n\"world\"")),
        ])
    );
    assert_eq!(through_text(&value), Some(value));
}

#[test]
fn list_contact_req_wire_form() {
    let value = ListContactReq { app_id: "app1".to_string(), page: 1, page_size: 10 };
    assert_eq!(value.to_json().render(), "{\"appId\":\"app1\",\"page\":1,\"pageSize\":10}");
    assert_eq!(through_text(&value), Some(value));
}

#[test]
fn delete_contact_req_wire_form() {
    let value =
        DeleteContactReq { email_address: "a@x.com".to_string(), app_id: "app1".to_string() };
    assert_eq!(value.to_json().render(), "{\"emailAddress\":\"a@x.com\",\"appId\":\"app1\"}");
    assert_eq!(through_text(&value), Some(value));
}

#[test]
fn save_contact_req_wire_form() {
    let with = SaveContactReq {
        app_id: "app1".to_string(),
        email_address: "a@x.com".to_string(),
        data: Some(attributes(&[("firstName", "John"), ("lastName", "Doe")])),
    };
    assert_eq!(
        with.to_json().render(),
        "{\"appId\":\"app1\",\"emailAddress\":\"a@x.com\",\"data\":{\"firstName\":\"John\",\"lastName\":\"Doe\"}}"
    );
    assert_eq!(through_text(&with), Some(with));
    let without = SaveContactReq {
        app_id: "app1".to_string(),
        email_address: "a@x.com".to_string(),
        data: None,
    };
    assert_eq!(without.to_json().render(), "{\"appId\":\"app1\",\"emailAddress\":\"a@x.com\"}");
    assert_eq!(through_text(&without), Some(without));
    let empty = SaveContactReq {
        app_id: "app1".to_string(),
        email_address: "a@x.com".to_string(),
        data: Some(Attributes::new()),
    };
    assert_eq!(
        empty.to_json().render(),
        "{\"appId\":\"app1\",\"emailAddress\":\"a@x.com\",\"data\":{}}"
    );
    assert_eq!(through_text(&empty), Some(empty));
}

#[test]
fn save_contact_req_reads_only_attributes_that_are_strings() {
    let null = Json::parse("{\"appId\":\"a\",\"emailAddress\":\"e\",\"data\":null}").unwrap();
    assert_eq!(
        SaveContactReq::from_json(&null),
        Some(SaveContactReq {
            app_id: "a".to_string(),
            email_address: "e".to_string(),
            data: None
        })
    );
    let repeated = Json::Object(vec![
        member("appId", text("a")),
        member("emailAddress", text("e")),
        member("data", Json::Object(vec![member("k", text("1")), member("k", text("2"))])),
    ]);
    assert_eq!(SaveContactReq::from_json(&repeated), None);
    let number = Json::parse("{\"appId\":\"a\",\"emailAddress\":\"e\",\"data\":{\"k\":1}}").unwrap();
    assert_eq!(SaveContactReq::from_json(&number), None);
    let list = Json::parse("{\"appId\":\"a\",\"emailAddress\":\"e\",\"data\":[]}").unwrap();
    assert_eq!(SaveContactReq::from_json(&list), None);
}

#[test]
fn contact_item_wire_form() {
    let value = contact("ada@x.com", 3);
    assert_eq!(
        value.to_json().render(),
        "{\"status\":\"subscribed\",\"emailAddress\":\"ada@x.com\",\"language\":\"en\",\"firstName\":\"Ada\",\"lastName\":\"Lovelace\",\"phoneNumber\":\"+44 20 7946 0000\",\"birthday\":\"1815-12-10\",\"company\":\"Analytical Engines\",\"vipLevel\":3,\"amount\":\"12.50\"}"
    );
    assert_eq!(through_text(&value), Some(value));
}

#[test]
fn contact_item_needs_every_attribute() {
    let names = [
        "status",
        "emailAddress",
        "language",
        "firstName",
        "lastName",
        "phoneNumber",
        "birthday",
        "company",
        "vipLevel",
        "amount",
    ];
    let whole = contact("ada@x.com", 3).to_json();
    let members = match &whole {
        Json::Object(members) => members.clone(),
        other => panic!("expected an object, got {:?}", other),
    };
    assert_eq!(members.iter().map(|(k, _)| k.as_str()).collect::<Vec<_>>(), names);
    for name in names {
        let rest: Vec<(String, Json)> =
            members.iter().filter(|(k, _)| k != name).cloned().collect();
        assert_eq!(ContactItem::from_json(&Json::Object(rest)), None, "without {}", name);
    }
    let level_as_text = Json::parse(
        "{\"status\":\"s\",\"emailAddress\":\"e\",\"language\":\"l\",\"firstName\":\"f\",\"lastName\":\"l\",\"phoneNumber\":\"p\",\"birthday\":\"b\",\"company\":\"c\",\"vipLevel\":\"3\",\"amount\":\"1\"}",
    )
    .unwrap();
    assert_eq!(ContactItem::from_json(&level_as_text), None);
}

#[test]
fn list_contact_resp_wire_form() {
    let value = ListContactResp {
        page: 1,
        page_size: 2,
        total_count: 7,
        data: vec![contact("ada@x.com", 3), contact("bob@x.com", 0)],
    };
    let json = value.to_json();
    assert_eq!(json.member("page"), Some(&Json::Int(1)));
    assert_eq!(json.member("pageSize"), Some(&Json::Int(2)));
    assert_eq!(json.member("totalCount"), Some(&Json::Int(7)));
    assert_eq!(
        json.member("data"),
        Some(&Json::Array(vec![
            contact("ada@x.com", 3).to_json(),
            contact("bob@x.com", 0).to_json()
        ]))
    );
    assert_eq!(json.member("list"), None);
    assert_eq!(through_text(&value), Some(value));
}

#[test]
fn list_contact_resp_reads_the_contacts_under_data_only() {
    let under_list = Json::parse("{\"page\":1,\"pageSize\":10,\"totalCount\":0,\"list\":[]}").unwrap();
    assert_eq!(ListContactResp::from_json(&under_list), None);
    let one_bad = Json::parse("{\"page\":1,\"pageSize\":10,\"totalCount\":1,\"data\":[{}]}").unwrap();
    assert_eq!(ListContactResp::from_json(&one_bad), None);
    let extra = Json::parse(
        "{\"requestId\":\"r\",\"page\":1,\"pageSize\":10,\"totalCount\":0,\"data\":[],\"more\":true}",
    )
    .unwrap();
    assert_eq!(
        ListContactResp::from_json(&extra),
        Some(ListContactResp { page: 1, page_size: 10, total_count: 0, data: vec![] })
    );
}

#[test]
fn common_response_wire_form() {
    let with: SendEmailResp = CommonResponse {
        request_id: "r-1".to_string(),
        code: 0,
        success: true,
        message: "ok".to_string(),
        ts: 1700000000000,
        data: Some(Json::Object(vec![member("id", Json::Int(7))])),
    };
    assert_eq!(
        with.to_json().render(),
        "{\"requestId\":\"r-1\",\"code\":0,\"success\":true,\"message\":\"ok\",\"ts\":1700000000000,\"data\":{\"id\":7}}"
    );
    assert_eq!(through_text(&with), Some(with));
    let without: SendEmailResp = CommonResponse {
        request_id: "r-2".to_string(),
        code: -5,
        success: false,
        message: "".to_string(),
        ts: -1,
        data: None,
    };
    assert_eq!(
        without.to_json().render(),
        "{\"requestId\":\"r-2\",\"code\":-5,\"success\":false,\"message\":\"\",\"ts\":-1}"
    );
    assert_eq!(through_text(&without), Some(without));
}

#[test]
fn common_response_with_a_typed_payload() {
    let value: CommonResponse<PaginateReq> = CommonResponse {
        request_id: "r".to_string(),
        code: 1,
        success: true,
        message: "m".to_string(),
        ts: 2,
        data: Some(PaginateReq { page: 3, page_size: 4 }),
    };
    assert_eq!(
        value.to_json().render(),
        "{\"requestId\":\"r\",\"code\":1,\"success\":true,\"message\":\"m\",\"ts\":2,\"data\":{\"page\":3,\"pageSize\":4}}"
    );
    assert_eq!(through_text(&value), Some(value));
    let bad_payload = Json::parse(
        "{\"requestId\":\"r\",\"code\":1,\"success\":true,\"message\":\"m\",\"ts\":2,\"data\":{\"page\":3}}",
    )
    .unwrap();
    assert_eq!(CommonResponse::<PaginateReq>::from_json(&bad_payload), None);
}

#[test]
fn a_null_payload_is_read_as_no_payload() {
    let value: SendEmailResp = CommonResponse {
        request_id: "r".to_string(),
        code: 0,
        success: true,
        message: "m".to_string(),
        ts: 0,
        data: Some(Json::Null),
    };
    let read = through_text(&value).unwrap();
    assert_eq!(read.data, None);
    assert_eq!(read.request_id, "r");
}

#[test]
fn common_response_needs_its_five_members() {
    let whole = "{\"requestId\":\"r\",\"code\":0,\"success\":true,\"message\":\"m\",\"ts\":1}";
    assert!(SendEmailResp::from_json(&Json::parse(whole).unwrap()).is_some());
    for missing in [
        "{\"code\":0,\"success\":true,\"message\":\"m\",\"ts\":1}",
        "{\"requestId\":\"r\",\"success\":true,\"message\":\"m\",\"ts\":1}",
        "{\"requestId\":\"r\",\"code\":0,\"message\":\"m\",\"ts\":1}",
        "{\"requestId\":\"r\",\"code\":0,\"success\":true,\"ts\":1}",
        "{\"requestId\":\"r\",\"code\":0,\"success\":true,\"message\":\"m\"}",
        "{\"requestId\":\"r\",\"code\":0.5,\"success\":true,\"message\":\"m\",\"ts\":1}",
        "{\"requestId\":\"r\",\"code\":0,\"success\":1,\"message\":\"m\",\"ts\":1}",
        "{\"requestId\":\"r\",\"code\":0,\"success\":true,\"message\":\"m\",\"ts\":9223372036854775808}",
    ] {
        assert_eq!(SendEmailResp::from_json(&Json::parse(missing).unwrap()), None, "{}", missing);
    }
}

#[test]
fn a_document_stands_for_itself() {
    let json = Json::Array(vec![Json::Int(1), text("x")]);
    assert_eq!(json.to_json(), json);
    assert_eq!(Json::from_json(&json), Some(json));
}

#[test]
fn an_envelope_tells_whether_its_payload_fits_its_success() {
    let mut envelope: SendEmailResp = CommonResponse {
        request_id: "r".to_string(),
        code: 0,
        success: true,
        message: "m".to_string(),
        ts: 0,
        data: Some(Json::Int(1)),
    };
    assert!(envelope.payload_only_on_success());
    envelope.success = false;
    assert!(!envelope.payload_only_on_success());
    envelope.data = None;
    assert!(envelope.payload_only_on_success());
    envelope.success = true;
    assert!(envelope.payload_only_on_success());
}

#[test]
fn requests_to_save_are_equal_whatever_the_order_of_their_attributes() {
    let one = SaveContactReq {
        app_id: "app1".to_string(),
        email_address: "a@x.com".to_string(),
        data: Some(attributes(&[("firstName", "John"), ("lastName", "Doe")])),
    };
    let other = SaveContactReq {
        app_id: "app1".to_string(),
        email_address: "a@x.com".to_string(),
        data: Some(attributes(&[("lastName", "Doe"), ("firstName", "John")])),
    };
    assert_eq!(one, other);
}
