use vstd::prelude::*;

use crate::events::AppError;
use crate::message::WebSocketMessage;

verus! {

/// What a blob ticket names: the providing endpoint's public key, the
/// content hash, and whether the blob is raw bytes (else a hash sequence).
#[derive(Debug, Clone, PartialEq, Eq)]
pub struct TicketParts {
    pub endpoint_id: [u8; 32],
    pub hash: [u8; 32],
    pub raw: bool,
}

/// The text form of the blob ticket for these parts, if the key is a valid
/// public key.
pub uninterp spec fn blob_ticket_text(endpoint_id: Seq<u8>, hash: Seq<u8>, raw: bool) -> Option<Seq<char>>;

/// The parts named by a ticket text, if it is one.
pub uninterp spec fn blob_ticket_parts(text: Seq<char>) -> Option<(Seq<u8>, Seq<u8>, bool)>;

/// Relies on iroh_base::PublicKey::from_bytes (fails on bytes that are no
/// curve point) and on the Display of iroh_blobs::ticket::BlobTicket, which
/// writes the prefix "blob" and then the base32 of the encoded ticket.
#[verifier::external_body]
fn ticket_text(parts: &TicketParts) -> (r: Option<String>)
    ensures
        r.is_some() == blob_ticket_text(parts.endpoint_id@, parts.hash@, parts.raw).is_some(),
        r.is_some() ==> r.unwrap()@ == blob_ticket_text(parts.endpoint_id@, parts.hash@, parts.raw).unwrap(),
        r.is_some() ==> r.unwrap()@.len() > 4 && r.unwrap()@.subrange(0, 4) == "blob"@,
{
    let id = iroh_base::PublicKey::from_bytes(&parts.endpoint_id).ok()?;
    let format = if parts.raw { iroh_blobs::BlobFormat::Raw } else { iroh_blobs::BlobFormat::HashSeq };
    let hash = iroh_blobs::Hash::from(parts.hash);
    let ticket = iroh_blobs::ticket::BlobTicket::new(iroh_base::EndpointAddr::new(id), hash, format);
    Some(ticket.to_string())
}

/// Relies on the FromStr of iroh_blobs::ticket::BlobTicket, and on its
/// accessors for the endpoint key, the hash and the format.
#[verifier::external_body]
fn ticket_parts(text: &str) -> (r: Option<TicketParts>)
    ensures
        r.is_some() == blob_ticket_parts(text@).is_some(),
        r.is_some() ==> blob_ticket_parts(text@).unwrap() == (r.unwrap().endpoint_id@, r.unwrap().hash@, r.unwrap().raw),
{
    let ticket: iroh_blobs::ticket::BlobTicket = text.parse().ok()?;
    let raw = matches!(ticket.format(), iroh_blobs::BlobFormat::Raw);
    Some(TicketParts { endpoint_id: *ticket.addr().id.as_bytes(), hash: *ticket.hash().as_bytes(), raw })
}

/// The announcement of a published object: `SendFile` with the ticket text
/// for its parts, or a transfer failure when the key is invalid.
pub fn announce_file(parts: &TicketParts) -> (r: Result<WebSocketMessage, AppError>)
    ensures
        r.is_ok() == blob_ticket_text(parts.endpoint_id@, parts.hash@, parts.raw).is_some(),
        match r {
            Ok(WebSocketMessage::SendFile(t)) => t@ == blob_ticket_text(parts.endpoint_id@, parts.hash@, parts.raw).unwrap()
                && t@.subrange(0, 4) == "blob"@,
            Ok(_) => false,
            Err(e) => e is Transfer,
        },
{
    match ticket_text(parts) {
        Some(t) => Ok(WebSocketMessage::SendFile(t)),
        None => Err(AppError::Transfer(String::from_str("invalid endpoint key in ticket"))),
    }
}

/// What a received ticket asks to fetch, or a transfer failure when the text
/// is no blob ticket.
pub fn resolve_request(ticket: &String) -> (r: Result<TicketParts, AppError>)
    ensures
        r.is_ok() == blob_ticket_parts(ticket@).is_some(),
        match r {
            Ok(p) => blob_ticket_parts(ticket@).unwrap() == (p.endpoint_id@, p.hash@, p.raw),
            Err(e) => e is Transfer,
        },
{
    match ticket_parts(ticket.as_str()) {
        Some(p) => Ok(p),
        None => Err(AppError::Transfer(String::from_str("malformed ticket"))),
    }
}

} // verus!
