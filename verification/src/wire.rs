//! The wire text of a rejection: each reply is serialized as the bare enum
//! tag, a JSON string.

use vstd::prelude::*;

use crate::domain::RejectionReply;

verus! {

/// The exact JSON text of each rejection reply.
pub open spec fn reply_text(reply: RejectionReply) -> Seq<char> {
    match reply {
        RejectionReply::AuthFailed => "\"AuthFailed\""@,
        RejectionReply::SubDomainInUse => "\"SubDomainInUse\""@,
        RejectionReply::InvalidSubDomain => "\"InvalidSubDomain\""@,
    }
}

/// Serialize a rejection reply for the outbound channel.
pub fn reply_message(reply: &RejectionReply) -> (r: String)
    ensures
        r@ == reply_text(*reply),
{
    match reply {
        RejectionReply::AuthFailed => "\"AuthFailed\"".to_owned(),
        RejectionReply::SubDomainInUse => "\"SubDomainInUse\"".to_owned(),
        RejectionReply::InvalidSubDomain => "\"InvalidSubDomain\"".to_owned(),
    }
}

} // verus!
