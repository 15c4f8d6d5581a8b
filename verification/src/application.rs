//! The application that sits on top of the node: it is asked about every
//! message a client submits and about every block before it is delivered.

use crate::api::ApiBlock;
use crate::crypto::{public_bytes, signature_valid, Keypair};
use crate::ephemera_message::{lay_out_raw, raw_bytes, raw_fits, EphemeraMessage};
use std::sync::Arc;
use vstd::prelude::*;

verus! {

/// Why the application gave no answer.
#[derive(Debug, Clone, Copy, PartialEq, Eq, Structural)]
pub enum ApplicationError {
    /// The message has no layout to verify the signature over.
    Encoding,
    /// The signature does not verify the message.
    InvalidSignature,
}

impl ApplicationError {
    /// The error in words.
    pub fn message(&self) -> (text: String)
        ensures
            text@ == match self {
                ApplicationError::Encoding => "Message too large"@,
                ApplicationError::InvalidSignature => "Invalid signature"@,
            },
    {
        match self {
            ApplicationError::Encoding => "Message too large".to_string(),
            ApplicationError::InvalidSignature => "Invalid signature".to_string(),
        }
    }
}

pub type ApplicationResult<T> = Result<T, ApplicationError>;

/// What the application says of a block.
#[derive(Debug, Clone, Copy, PartialEq, Eq, Structural)]
pub enum CheckBlockResult {
    /// Deliver the block.
    Accept,
    /// Do not deliver the block.
    Reject,
}

/// What an application of the node answers.
pub trait Application {
    /// Is the message of a client acceptable?
    fn check_tx(&self, tx: EphemeraMessage) -> ApplicationResult<bool>;

    /// Is the block acceptable?
    fn check_block(&self, block: &ApiBlock) -> ApplicationResult<CheckBlockResult>;

    /// Takes a block that reached consensus.
    fn deliver_block(&self, block: ApiBlock) -> ApplicationResult<()>;
}

/// The application that accepts everything.
#[derive(Debug, Clone, Copy)]
pub struct Dummy;

impl Application for Dummy {
    fn check_tx(&self, tx: EphemeraMessage) -> (r: ApplicationResult<bool>)
        ensures
            r == Ok::<bool, ApplicationError>(true),
    {
        Ok(true)
    }

    fn check_block(&self, block: &ApiBlock) -> (r: ApplicationResult<CheckBlockResult>)
        ensures
            r == Ok::<CheckBlockResult, ApplicationError>(CheckBlockResult::Accept),
    {
        Ok(CheckBlockResult::Accept)
    }

    fn deliver_block(&self, block: ApiBlock) -> (r: ApplicationResult<()>)
        ensures
            r.is_ok(),
    {
        Ok(())
    }
}

/// The application that accepts the messages that are signed with the key
/// of the node, and every block.
pub struct SignatureVerificationApplication {
    keypair: Arc<Keypair>,
}

impl SignatureVerificationApplication {
    /// The key pair the application verifies with.
    pub closed spec fn key(&self) -> Keypair {
        *self.keypair
    }

    #[must_use]
    pub fn new(keypair: Arc<Keypair>) -> (app: Self)
        ensures
            app.key() == *keypair,
    {
        Self { keypair }
    }

    /// Does the signature of the message verify the layout of its raw
    /// message under the public key of this application?
    pub open spec fn accepts(&self, msg: EphemeraMessage) -> bool {
        signature_valid(public_bytes(self.key()@), raw_bytes(msg@.raw), msg@.signature)
    }

    /// Verifies the signature of a message over its raw message with the
    /// key of this application.
    pub fn verify_message(&self, msg: EphemeraMessage) -> (r: ApplicationResult<()>)
        ensures
            match r {
                Ok(_) => raw_fits(msg@.raw) && self.accepts(msg),
                Err(ApplicationError::Encoding) => !raw_fits(msg@.raw),
                Err(ApplicationError::InvalidSignature) => raw_fits(msg@.raw) && !self.accepts(msg),
            },
    {
        let encoded_message = match lay_out_raw(msg.timestamp, &msg.label, &msg.data) {
            Ok(bytes) => bytes,
            Err(_) => {
                return Err(ApplicationError::Encoding);
            },
        };
        if self.keypair.verify(encoded_message.as_slice(), &msg.certificate.signature) {
            Ok(())
        } else {
            Err(ApplicationError::InvalidSignature)
        }
    }
}

impl Application for SignatureVerificationApplication {
    fn check_tx(&self, tx: EphemeraMessage) -> (r: ApplicationResult<bool>)
        ensures
            match r {
                Ok(accepted) => accepted && raw_fits(tx@.raw) && self.accepts(tx),
                Err(ApplicationError::Encoding) => !raw_fits(tx@.raw),
                Err(ApplicationError::InvalidSignature) => raw_fits(tx@.raw) && !self.accepts(tx),
            },
    {
        match self.verify_message(tx) {
            Ok(_) => Ok(true),
            Err(e) => Err(e),
        }
    }

    fn check_block(&self, block: &ApiBlock) -> (r: ApplicationResult<CheckBlockResult>)
        ensures
            r == Ok::<CheckBlockResult, ApplicationError>(CheckBlockResult::Accept),
    {
        Ok(CheckBlockResult::Accept)
    }

    fn deliver_block(&self, block: ApiBlock) -> (r: ApplicationResult<()>)
        ensures
            r.is_ok(),
    {
        Ok(())
    }
}

} // verus!
