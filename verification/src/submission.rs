//! The record of a submission, and how the fields of a multipart body are
//! folded into it.

use crate::multipart::{FieldView, MultipartField};
use vstd::prelude::*;
use vstd::string::*;
use vstd::utf8::{decode_utf8, valid_utf8};

verus! {

/// `std::string::FromUtf8Error`, why bytes were not taken as text. Carried,
/// never read.
#[verifier::external_type_specification]
#[verifier::external_body]
pub struct ExFromUtf8Error(std::string::FromUtf8Error);

/// `String::from_utf8`: trusted to succeed exactly on valid UTF-8, with the
/// characters that the bytes encode.
pub assume_specification[ String::from_utf8 ](bytes: Vec<u8>) -> (r: Result<
    String,
    std::string::FromUtf8Error,
>)
    ensures
        r is Ok <==> valid_utf8(bytes@),
        r matches Ok(text) ==> text@ == decode_utf8(bytes@),
;

/// What a field means to a submission, by its name.
#[derive(Debug, Clone, Copy, PartialEq, Eq, Structural)]
pub enum FieldRole {
    /// The image of the token: named `tokenImage`.
    TokenImage,
    /// The name of the token: named `tokenName`.
    TokenName,
    /// Any other field.
    Unknown,
}

/// The name of the field that carries the image.
pub const TOKEN_IMAGE: &'static str = "tokenImage";

/// The name of the field that carries the token's name.
pub const TOKEN_NAME: &'static str = "tokenName";

/// The role of the field named `name`.
pub open spec fn role_of(name: Seq<char>) -> FieldRole {
    if name == TOKEN_IMAGE@ {
        FieldRole::TokenImage
    } else if name == TOKEN_NAME@ {
        FieldRole::TokenName
    } else {
        FieldRole::Unknown
    }
}

/// Tells the role of a field from its name.
pub fn classify(name: &String) -> (role: FieldRole)
    ensures
        role == role_of(name@),
{
    if *name == String::from_str(TOKEN_IMAGE) {
        FieldRole::TokenImage
    } else if *name == String::from_str(TOKEN_NAME) {
        FieldRole::TokenName
    } else {
        FieldRole::Unknown
    }
}

/// What a submission has come to: the token's name, and the image's file
/// name and bytes. Any of them may never have been sent.
#[derive(Debug, PartialEq, Eq)]
pub struct SubmissionRecord {
    pub token_name: String,
    pub image_filename: String,
    pub image_bytes: Vec<u8>,
}

/// A `SubmissionRecord` as sequences.
pub struct RecordView {
    pub token_name: Seq<char>,
    pub image_filename: Seq<char>,
    pub image_bytes: Seq<u8>,
}

impl View for SubmissionRecord {
    type V = RecordView;

    open spec fn view(&self) -> RecordView {
        RecordView {
            token_name: self.token_name@,
            image_filename: self.image_filename@,
            image_bytes: self.image_bytes@,
        }
    }
}

impl RecordView {
    /// The record of a submission of which nothing has been read.
    pub open spec fn empty() -> RecordView {
        RecordView {
            token_name: Seq::empty(),
            image_filename: Seq::empty(),
            image_bytes: Seq::empty(),
        }
    }

    /// This record after `field`.
    ///
    /// An image field gives its bytes, and its file name if it has one. A
    /// name field gives the token's name if its content is valid UTF-8, and
    /// changes nothing if it is not. Any other field changes nothing.
    pub open spec fn absorbed(self, field: FieldView) -> RecordView {
        match role_of(field.name) {
            FieldRole::TokenImage => RecordView {
                image_filename: match field.filename {
                    Some(filename) => filename,
                    None => self.image_filename,
                },
                image_bytes: field.content,
                ..self
            },
            FieldRole::TokenName => if valid_utf8(field.content) {
                RecordView { token_name: decode_utf8(field.content), ..self }
            } else {
                self
            },
            FieldRole::Unknown => self,
        }
    }
}

/// The record that a sequence of fields comes to, each folded in after
/// those before it.
pub open spec fn assembled(fields: Seq<FieldView>) -> RecordView
    decreases fields.len(),
{
    if fields.len() == 0 {
        RecordView::empty()
    } else {
        assembled(fields.drop_last()).absorbed(fields.last())
    }
}

impl SubmissionRecord {
    /// The record of a submission of which nothing has been read.
    pub fn new() -> (record: SubmissionRecord)
        ensures
            record@ == RecordView::empty(),
    {
        SubmissionRecord {
            token_name: String::new(),
            image_filename: String::new(),
            image_bytes: Vec::new(),
        }
    }

    /// Folds `field` into the record, by the role of its name.
    pub fn absorb(&mut self, field: MultipartField)
        ensures
            final(self)@ == old(self)@.absorbed(field@),
    {
        match classify(&field.name) {
            FieldRole::TokenImage => {
                if let Some(filename) = field.filename {
                    self.image_filename = filename;
                }
                self.image_bytes = field.content;
            },
            FieldRole::TokenName => {
                if let Ok(text) = String::from_utf8(field.content) {
                    self.token_name = text;
                }
            },
            FieldRole::Unknown => {},
        }
    }
}

/// Folds a whole sequence of fields, in its order, into one record.
pub fn assemble(fields: Vec<MultipartField>) -> (record: SubmissionRecord)
    ensures
        record@ == assembled(fields.deep_view()),
{
    let ghost all = fields.deep_view();
    let mut record = SubmissionRecord::new();
    for field in it: fields
        invariant
            it.seq().len() == all.len(),
            forall|i: int| 0 <= i < all.len() ==> (#[trigger] it.seq()[i])@ == all[i],
            record@ == assembled(all.take(it.index())),
    {
        proof {
            let done = it.index();
            assert(all.take(done + 1).drop_last() =~= all.take(done));
            assert(all.take(done + 1).last() == all[done]);
        }
        record.absorb(field);
    }
    proof {
        assert(all.take(all.len() as int) =~= all);
    }
    record
}

} // verus!
