//! The requests and responses of the HTTP interface, shared by the server
//! ([`super::http`]) and the command-line client ([`super::cli`]).

use std::collections::HashMap;

use vstd::prelude::*;

use crate::json;

verus! {

/// `POST /registry` request body.
#[derive(Debug)]
pub struct RegisterReq {
    pub name: String,
    pub url: String,
    pub description: String,
}

/// `POST /registry` response body.
#[derive(Clone, Copy, Debug, PartialEq, Eq, Structural)]
pub struct RegisterRes {
    pub id: u64,
}

impl RegisterRes {
    /// The JSON text `body` reads as this response.
    pub open spec fn carried_by(self, body: Seq<char>) -> bool {
        json::field_json(body, "id"@) == Some(crate::text::decimal(self.id as nat))
    }

    /// The JSON text of the response.
    pub fn to_json(&self) -> (r: String)
        ensures
            r@ == json::number_object_json("id"@, self.id),
            self.carried_by(r@),
    {
        proof {
            reveal_strlit("id");
            json::not_reserved("id"@);
        }
        json::number_object("id", self.id)
    }
}

/// `POST /unregistry` request body.
#[derive(Clone, Copy, Debug, PartialEq, Eq, Structural)]
pub struct UnregisterReq {
    pub id: u64,
}

/// `POST /unregistry` response body.
#[derive(Clone, Copy, Debug, PartialEq, Eq, Structural)]
pub struct UnregisterRes {
    pub success: bool,
}

impl UnregisterRes {
    /// The JSON text `body` reads as this response.
    pub open spec fn carried_by(self, body: Seq<char>) -> bool {
        json::field_json(body, "success"@) == Some(json::bool_json(self.success))
    }

    /// The JSON text of the response.
    pub fn to_json(&self) -> (r: String)
        ensures
            r@ == json::bool_object_json("success"@, self.success),
            self.carried_by(r@),
    {
        proof {
            reveal_strlit("success");
            json::not_reserved("success"@);
        }
        json::bool_object("success", self.success)
    }
}

/// One backend instance in a [`ServiceGroup`].
#[derive(Debug)]
pub struct Instance {
    pub url: String,
}

/// `GET /list` value: a named service and all instances running under it.
#[derive(Debug)]
pub struct ServiceGroup {
    pub description: String,
    /// `id -> instance`.
    pub services: HashMap<u64, Instance>,
}

/// What a [`ServiceGroup`] holds: a description, and the address of each
/// instance by its id.
#[verifier::ext_equal]
pub struct GroupView {
    pub description: Seq<char>,
    pub services: Map<u64, Seq<char>>,
}

impl View for ServiceGroup {
    type V = GroupView;

    open spec fn view(&self) -> GroupView {
        GroupView {
            description: self.description@,
            services: self.services@.map_values(|i: Instance| i.url@),
        }
    }
}

} // verus!
