use vstd::prelude::*;

use crate::types::flags::{UDbFlg, UDbFlgBit, selected_flags, select_flags};

verus! {

/// A request body type an action accepts, held as its flag bit.
#[derive(Clone, Copy, PartialEq, Eq, Structural, Debug)]
pub struct ContentType(pub UDbFlgBit);

/// The flag bits of the content types, in their fixed order.
pub open spec fn content_type_flags() -> Seq<UDbFlgBit> {
    seq![1i64, 2, 4]
}

/// The bits of a list of content types.
pub open spec fn content_bits(cs: Seq<ContentType>) -> Seq<UDbFlgBit> {
    cs.map_values(|c: ContentType| c.0)
}

/// The media type text of a content type; `None` for a value that is not one of the three.
pub open spec fn content_type_text(c: ContentType) -> Option<Seq<char>> {
    if c.0 == ContentType::TYPE_APPLICATION_JSON {
        Some("application/json"@)
    } else if c.0 == ContentType::TYPE_APPLICATION_WWW_FORM_URLENCODED {
        Some("application/x-www-form-urlencoded"@)
    } else if c.0 == ContentType::TYPE_MULTIPART_FORM_DATA {
        Some("multipart/form-data"@)
    } else {
        None
    }
}

/// The text of `mime::APPLICATION_JSON`, which the crate defines as `application/json`.
#[verifier::external_body]
fn mime_application_json() -> (r: String)
    ensures
        r@ == "application/json"@,
{
    mime::APPLICATION_JSON.to_string()
}

/// The text of `mime::APPLICATION_WWW_FORM_URLENCODED`, which the crate defines as
/// `application/x-www-form-urlencoded`.
#[verifier::external_body]
fn mime_application_www_form_urlencoded() -> (r: String)
    ensures
        r@ == "application/x-www-form-urlencoded"@,
{
    mime::APPLICATION_WWW_FORM_URLENCODED.to_string()
}

/// The text of `mime::MULTIPART_FORM_DATA`, which the crate defines as `multipart/form-data`.
#[verifier::external_body]
fn mime_multipart_form_data() -> (r: String)
    ensures
        r@ == "multipart/form-data"@,
{
    mime::MULTIPART_FORM_DATA.to_string()
}

impl ContentType {
    pub const TYPE_APPLICATION_JSON: UDbFlgBit = 1;
    pub const TYPE_APPLICATION_WWW_FORM_URLENCODED: UDbFlgBit = 2;
    pub const TYPE_MULTIPART_FORM_DATA: UDbFlgBit = 4;

    pub const FLAGS: [UDbFlgBit; 3] = [1, 2, 4];

    /// `application/json`.
    pub fn json() -> (r: ContentType)
        ensures
            r == ContentType(1),
    {
        ContentType(1)
    }

    /// `application/x-www-form-urlencoded`.
    pub fn url() -> (r: ContentType)
        ensures
            r == ContentType(2),
    {
        ContentType(2)
    }

    /// `multipart/form-data`.
    pub fn form() -> (r: ContentType)
        ensures
            r == ContentType(4),
    {
        ContentType(4)
    }

    /// The content types whose bit is set in `flag`, in the order of `FLAGS`.
    pub fn from_flag(flag: UDbFlg) -> (r: Vec<ContentType>)
        ensures
            content_bits(r@) == selected_flags(flag, content_type_flags()),
    {
        let flags = Self::FLAGS;
        assert(flags@ =~= content_type_flags());
        let bits = select_flags(flag, flags.as_slice());
        let mut r: Vec<ContentType> = Vec::new();
        let mut i: usize = 0;
        while i < bits.len()
            invariant
                i <= bits@.len(),
                r@.len() == i,
                forall|k: int| 0 <= k < i ==> #[trigger] r@[k].0 == bits@[k],
            decreases bits@.len() - i,
        {
            r.push(ContentType(bits[i]));
            i = i + 1;
        }
        assert(content_bits(r@) =~= bits@);
        r
    }

    /// The media type text of this content type; `Err` for a value that is not one of the three.
    pub fn mime_text(self) -> (r: Result<String, ()>)
        ensures
            match content_type_text(self) {
                Some(t) => r matches Ok(s) && s@ == t,
                None => r is Err,
            },
    {
        if self.0 == Self::TYPE_APPLICATION_JSON {
            Ok(mime_application_json())
        } else if self.0 == Self::TYPE_APPLICATION_WWW_FORM_URLENCODED {
            Ok(mime_application_www_form_urlencoded())
        } else if self.0 == Self::TYPE_MULTIPART_FORM_DATA {
            Ok(mime_multipart_form_data())
        } else {
            Err(())
        }
    }
}

} // verus!
