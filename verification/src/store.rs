//! The persistent store as the cache sees it: the rows it answers with, the
//! requests the cache hands out for it, and a model of what it holds.
//!
//! The cache never talks to the store. It names the round trip to make, its
//! caller makes it, and the answer comes back as a plain value.

use vstd::prelude::*;

verus! {

/// A row of the store: a device and the peer it accepts.
#[derive(Debug, PartialEq, Eq)]
pub struct StoredBinding {
    pub mac_id: String,
    pub allowed_id: String,
}

/// A row as a pair of character sequences.
pub struct BindingView {
    pub mac_id: Seq<char>,
    pub allowed_id: Seq<char>,
}

impl View for StoredBinding {
    type V = BindingView;

    open spec fn view(&self) -> BindingView {
        BindingView { mac_id: self.mac_id@, allowed_id: self.allowed_id@ }
    }
}

/// Why the store could not answer. The cache never reads the message.
#[derive(Debug, PartialEq, Eq)]
pub struct StorageError {
    pub message: String,
}

/// What the store answers to a lookup.
pub type LookupReply = Result<Option<StoredBinding>, StorageError>;

/// What the store answers to an insert or an update.
pub type WriteReply = Result<(), StorageError>;

/// The row that a lookup brought, if it brought one. A failure of the store
/// during a lookup counts as "no row".
pub open spec fn row_of(reply: LookupReply) -> Option<BindingView> {
    match reply {
        Ok(Some(row)) => Some(row@),
        _ => None,
    }
}

/// A lookup that the cache asks its caller to make in the store.
#[derive(Debug, PartialEq, Eq)]
pub enum ReadRequest {
    /// Look for the row of `mac_id`.
    FindByMacId { mac_id: String },
    /// Look for the row of `mac_id`, and accept it only with this `allowed_id`.
    FindByMacAndAllowedId { mac_id: String, allowed_id: String },
}

/// A lookup over character sequences.
pub enum ReadRequestView {
    FindByMacId { mac_id: Seq<char> },
    FindByMacAndAllowedId { mac_id: Seq<char>, allowed_id: Seq<char> },
}

impl View for ReadRequest {
    type V = ReadRequestView;

    open spec fn view(&self) -> ReadRequestView {
        match self {
            ReadRequest::FindByMacId { mac_id } => ReadRequestView::FindByMacId { mac_id: mac_id@ },
            ReadRequest::FindByMacAndAllowedId { mac_id, allowed_id } => {
                ReadRequestView::FindByMacAndAllowedId { mac_id: mac_id@, allowed_id: allowed_id@ }
            },
        }
    }
}

/// A change that the cache asks its caller to make in the store.
#[derive(Debug, PartialEq, Eq)]
pub enum WriteRequest {
    /// Create the row `(mac_id, allowed_id)`.
    InsertBinding { mac_id: String, allowed_id: String },
    /// Set the `allowed_id` of the row of `mac_id`.
    UpdateBinding { mac_id: String, allowed_id: String },
}

/// A change over character sequences.
pub enum WriteRequestView {
    InsertBinding { mac_id: Seq<char>, allowed_id: Seq<char> },
    UpdateBinding { mac_id: Seq<char>, allowed_id: Seq<char> },
}

impl View for WriteRequest {
    type V = WriteRequestView;

    open spec fn view(&self) -> WriteRequestView {
        match self {
            WriteRequest::InsertBinding { mac_id, allowed_id } => {
                WriteRequestView::InsertBinding { mac_id: mac_id@, allowed_id: allowed_id@ }
            },
            WriteRequest::UpdateBinding { mac_id, allowed_id } => {
                WriteRequestView::UpdateBinding { mac_id: mac_id@, allowed_id: allowed_id@ }
            },
        }
    }
}

/// What a store holds: for each device that has a row, the peer it accepts.
pub struct StoreModel {
    pub rows: Map<Seq<char>, Seq<char>>,
}

impl StoreModel {
    /// The answer of a working store to `FindByMacId`.
    pub open spec fn find_by_mac_id(self, mac_id: Seq<char>) -> Option<BindingView> {
        if self.rows.contains_key(mac_id) {
            Some(BindingView { mac_id, allowed_id: self.rows[mac_id] })
        } else {
            None
        }
    }

    /// The answer of a working store to `FindByMacAndAllowedId`.
    pub open spec fn find_by_mac_and_allowed_id(
        self,
        mac_id: Seq<char>,
        allowed_id: Seq<char>,
    ) -> Option<BindingView> {
        if self.rows.contains_key(mac_id) && self.rows[mac_id] == allowed_id {
            Some(BindingView { mac_id, allowed_id })
        } else {
            None
        }
    }

    /// The answer of a working store to a lookup.
    pub open spec fn answer(self, request: ReadRequestView) -> Option<BindingView> {
        match request {
            ReadRequestView::FindByMacId { mac_id } => self.find_by_mac_id(mac_id),
            ReadRequestView::FindByMacAndAllowedId { mac_id, allowed_id } => {
                self.find_by_mac_and_allowed_id(mac_id, allowed_id)
            },
        }
    }

    /// The store after a change that it carried out. An insert creates the
    /// row; an update changes a row that is there and nothing else.
    pub open spec fn after(self, request: WriteRequestView) -> StoreModel {
        match request {
            WriteRequestView::InsertBinding { mac_id, allowed_id } => StoreModel {
                rows: self.rows.insert(mac_id, allowed_id),
            },
            WriteRequestView::UpdateBinding { mac_id, allowed_id } => {
                if self.rows.contains_key(mac_id) {
                    StoreModel { rows: self.rows.insert(mac_id, allowed_id) }
                } else {
                    self
                }
            },
        }
    }
}

} // verus!
