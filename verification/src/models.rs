//! The records that are sent to and received from the service.
//!
//! Each record has a view, a value of mathematical strings, sequences and
//! integers, which the contracts of the crate speak of.
use crate::attributes::Attributes;
use crate::json::Json;
use vstd::prelude::*;

verus! {

/// The position of a page in a listing.
#[derive(Debug, Clone, Copy, PartialEq, Eq)]
pub struct PaginateReq {
    pub page: i32,
    pub page_size: i32,
}

impl View for PaginateReq {
    type V = PaginateReq;

    open spec fn view(&self) -> PaginateReq {
        *self
    }
}

/// The position of a page in a listing, with the size of the whole listing.
#[derive(Debug, Clone, Copy, PartialEq, Eq)]
pub struct PaginateResp {
    pub page: i32,
    pub page_size: i32,
    pub total_count: i64,
}

impl View for PaginateResp {
    type V = PaginateResp;

    open spec fn view(&self) -> PaginateResp {
        *self
    }
}

/// The envelope in which the service answers. The service sets `data` only
/// where `success` is true, but may leave it out even then: nothing here
/// relies on it.
#[derive(Debug, Clone, PartialEq)]
pub struct CommonResponse<T> {
    pub request_id: String,
    pub code: i32,
    pub success: bool,
    pub message: String,
    pub ts: i64,
    pub data: Option<T>,
}

/// The view of [`CommonResponse`].
pub struct CommonResponseView<V> {
    pub request_id: Seq<char>,
    pub code: i32,
    pub success: bool,
    pub message: Seq<char>,
    pub ts: i64,
    pub data: Option<V>,
}

impl<T: View> View for CommonResponse<T> {
    type V = CommonResponseView<T::V>;

    open spec fn view(&self) -> CommonResponseView<T::V> {
        CommonResponseView {
            request_id: self.request_id@,
            code: self.code,
            success: self.success,
            message: self.message@,
            ts: self.ts,
            data: match self.data {
                Some(payload) => Some(payload@),
                None => None,
            },
        }
    }
}

impl<V> CommonResponseView<V> {
    /// Whether the envelope keeps to the rule of the service that only a
    /// successful answer has a payload.
    pub open spec fn payload_only_on_success(self) -> bool {
        self.data is Some ==> self.success
    }
}

impl<T: View> CommonResponse<T> {
    /// Whether the envelope keeps to the rule of the service that only a
    /// successful answer has a payload. The service does not always keep to
    /// it, and an envelope is read whether it does or not.
    pub fn payload_only_on_success(&self) -> (kept: bool)
        ensures
            kept == self@.payload_only_on_success(),
    {
        self.data.is_none() || self.success
    }
}

/// An email to send.
#[derive(Debug, Clone, PartialEq, Eq)]
pub struct SendEmailReq {
    pub from: String,
    pub to: String,
    pub subject: String,
    pub body: String,
}

/// The view of [`SendEmailReq`].
pub struct SendEmailReqView {
    pub from: Seq<char>,
    pub to: Seq<char>,
    pub subject: Seq<char>,
    pub body: Seq<char>,
}

impl View for SendEmailReq {
    type V = SendEmailReqView;

    open spec fn view(&self) -> SendEmailReqView {
        SendEmailReqView {
            from: self.from@,
            to: self.to@,
            subject: self.subject@,
            body: self.body@,
        }
    }
}

/// The answer to a request to send an email: an envelope whose payload is
/// not interpreted.
pub type SendEmailResp = CommonResponse<Json>;

/// A request for one page of the contacts of an application.
#[derive(Debug, Clone, PartialEq, Eq)]
pub struct ListContactReq {
    pub app_id: String,
    pub page: i32,
    pub page_size: i32,
}

/// The view of [`ListContactReq`].
pub struct ListContactReqView {
    pub app_id: Seq<char>,
    pub page: i32,
    pub page_size: i32,
}

impl View for ListContactReq {
    type V = ListContactReqView;

    open spec fn view(&self) -> ListContactReqView {
        ListContactReqView { app_id: self.app_id@, page: self.page, page_size: self.page_size }
    }
}

/// One contact of an application. On the wire every one of the ten
/// attributes is present: the level as a whole number, the others as strings.
#[derive(Debug, Clone, PartialEq, Eq)]
pub struct ContactItem {
    pub status: String,
    pub email_address: String,
    pub language: String,
    pub first_name: String,
    pub last_name: String,
    pub phone_number: String,
    pub birthday: String,
    pub company: String,
    pub vip_level: i32,
    pub amount: String,
}

/// The view of [`ContactItem`].
pub struct ContactItemView {
    pub status: Seq<char>,
    pub email_address: Seq<char>,
    pub language: Seq<char>,
    pub first_name: Seq<char>,
    pub last_name: Seq<char>,
    pub phone_number: Seq<char>,
    pub birthday: Seq<char>,
    pub company: Seq<char>,
    pub vip_level: i32,
    pub amount: Seq<char>,
}

impl View for ContactItem {
    type V = ContactItemView;

    open spec fn view(&self) -> ContactItemView {
        ContactItemView {
            status: self.status@,
            email_address: self.email_address@,
            language: self.language@,
            first_name: self.first_name@,
            last_name: self.last_name@,
            phone_number: self.phone_number@,
            birthday: self.birthday@,
            company: self.company@,
            vip_level: self.vip_level,
            amount: self.amount@,
        }
    }
}

/// One page of contacts. On the wire the contacts stand under the name
/// `data`, each as a record of the attributes of [`ContactItem`].
#[derive(Debug, Clone, PartialEq, Eq)]
pub struct ListContactResp {
    pub page: i32,
    pub page_size: i32,
    pub total_count: i64,
    pub data: Vec<ContactItem>,
}

/// The view of [`ListContactResp`].
pub struct ListContactRespView {
    pub page: i32,
    pub page_size: i32,
    pub total_count: i64,
    pub data: Seq<ContactItemView>,
}

impl View for ListContactResp {
    type V = ListContactRespView;

    open spec fn view(&self) -> ListContactRespView {
        ListContactRespView {
            page: self.page,
            page_size: self.page_size,
            total_count: self.total_count,
            data: Seq::new(self.data@.len(), |i: int| self.data@[i]@),
        }
    }
}

/// A contact to create or to update. `data` holds further attributes of
/// the contact by name; which names there are is for the service to say.
#[derive(Debug, Clone, PartialEq, Eq)]
pub struct SaveContactReq {
    pub app_id: String,
    pub email_address: String,
    pub data: Option<Attributes>,
}

/// The view of [`SaveContactReq`].
pub struct SaveContactReqView {
    pub app_id: Seq<char>,
    pub email_address: Seq<char>,
    pub data: Option<Seq<(Seq<char>, Seq<char>)>>,
}

impl View for SaveContactReq {
    type V = SaveContactReqView;

    open spec fn view(&self) -> SaveContactReqView {
        SaveContactReqView {
            app_id: self.app_id@,
            email_address: self.email_address@,
            data: match self.data {
                Some(attributes) => Some(attributes@),
                None => None,
            },
        }
    }
}

/// The answer to a request to save a contact.
pub type SaveContactResp = CommonResponse<Json>;

/// A contact to delete.
#[derive(Debug, Clone, PartialEq, Eq)]
pub struct DeleteContactReq {
    pub email_address: String,
    pub app_id: String,
}

/// The view of [`DeleteContactReq`].
pub struct DeleteContactReqView {
    pub email_address: Seq<char>,
    pub app_id: Seq<char>,
}

impl View for DeleteContactReq {
    type V = DeleteContactReqView;

    open spec fn view(&self) -> DeleteContactReqView {
        DeleteContactReqView { email_address: self.email_address@, app_id: self.app_id@ }
    }
}

/// The answer to a request to delete a contact.
pub type DeleteContactResp = CommonResponse<Json>;

} // verus!
