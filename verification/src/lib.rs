//! Client library for the DeSo blockchain's HTTP node API.
//!
//! The library assembles transaction payloads (posts, comments), models the
//! request/response exchange with a node as a verified state machine, and
//! signs transaction bytes locally with a secp256k1 private key.

use vstd::prelude::*;
use vstd::string::StringExecFns;

pub mod crypto_lib;
pub mod errors;
pub mod flow;
pub mod hexutil;
pub mod post_lib;

pub use post_lib::SubmitPostDataBuilder;

verus! {

/// Determines whether to target the Main node or Test node.
#[derive(Clone, Copy, Debug, PartialEq, Eq, Structural)]
pub enum Node {
    MAIN,
    TEST,
}

/// The URI of an API endpoint on the given node.
pub open spec fn endpoint_spec(node: Node, api: Seq<char>) -> Seq<char> {
    match node {
        Node::MAIN => "https://node.deso.org/"@ + api,
        Node::TEST => "https://test.deso.org/"@ + api,
    }
}

impl Node {
    /// The full URI for an API path on this node.
    pub fn get_endpoint(self, api: &str) -> (r: String)
        ensures
            r@ == endpoint_spec(self, api@),
    {
        match self {
            Node::MAIN => "https://node.deso.org/".to_owned().concat(api),
            Node::TEST => "https://test.deso.org/".to_owned().concat(api),
        }
    }
}

/// A Deso account that will be used to do any transactions.
#[derive(Debug)]
pub struct DesoAccount {
    /// The deso account public key.
    pub public_key: String,
    /// Either the seed hex or derived private key (recommended).
    pub seed_hex_key: String,
    /// The derived public key (needed if using a derived private key).
    pub derived_public_key: Option<String>,
    /// The node being targeted (Main is the default).
    pub node: Node,
}

/// A Deso account builder that will be used to do any transactions.
pub struct DesoAccountBuilder {
    /// The deso account public key.
    pub public_key: Option<String>,
    /// Either the seed hex or derived private key (recommended).
    pub seed_hex_key: Option<String>,
    /// The derived public key (needed if using a derived private key).
    pub derived_public_key: Option<String>,
    /// The node being targeted.
    pub node: Option<Node>,
}

impl DesoAccountBuilder {
    /// A builder targeting the Main node, with every other field unset.
    pub fn new() -> (r: Self)
        ensures
            r.public_key is None,
            r.seed_hex_key is None,
            r.derived_public_key is None,
            r.node == Some(Node::MAIN),
    {
        DesoAccountBuilder {
            public_key: None,
            seed_hex_key: None,
            derived_public_key: None,
            node: Some(Node::MAIN),
        }
    }

    /// Sets the deso account public key.
    pub fn public_key(self, public_key: String) -> (r: Self)
        ensures
            r == (DesoAccountBuilder { public_key: Some(public_key), ..self }),
    {
        DesoAccountBuilder { public_key: Some(public_key), ..self }
    }

    /// Sets the seed hex or derived private key.
    pub fn seed_hex_key(self, seed_hex_key: String) -> (r: Self)
        ensures
            r == (DesoAccountBuilder { seed_hex_key: Some(seed_hex_key), ..self }),
    {
        DesoAccountBuilder { seed_hex_key: Some(seed_hex_key), ..self }
    }

    /// Sets the derived public key.
    pub fn derived_public_key(self, derived_public_key: String) -> (r: Self)
        ensures
            r == (DesoAccountBuilder { derived_public_key: Some(derived_public_key), ..self }),
    {
        DesoAccountBuilder { derived_public_key: Some(derived_public_key), ..self }
    }

    /// Sets the node being targeted.
    pub fn node(self, node: Node) -> (r: Self)
        ensures
            r == (DesoAccountBuilder { node: Some(node), ..self }),
    {
        DesoAccountBuilder { node: Some(node), ..self }
    }

    /// Builds the `DesoAccount`. Fails exactly when the public key or the
    /// seed hex key was never set.
    pub fn build(self) -> (r: Result<DesoAccount, errors::DesoError>)
        requires
            self.node is Some,
        ensures
            r is Err <==> (self.public_key is None || self.seed_hex_key is None),
            self.public_key is None ==> (r matches Err(errors::DesoError::DesoAccountError(f))
                && f@ == "Public Key"@),
            (self.public_key is Some && self.seed_hex_key is None) ==> (r matches Err(
                errors::DesoError::DesoAccountError(f),
            ) && f@ == "Seed Hex or Derived Private Key"@),
            r matches Ok(a) ==> {
                &&& a.public_key == self.public_key->0
                &&& a.seed_hex_key == self.seed_hex_key->0
                &&& a.derived_public_key == self.derived_public_key
                &&& a.node == self.node->0
            },
    {
        if self.public_key.is_none() {
            return Err(errors::DesoError::DesoAccountError("Public Key".to_owned()));
        }
        if self.seed_hex_key.is_none() {
            return Err(
                errors::DesoError::DesoAccountError("Seed Hex or Derived Private Key".to_owned()),
            );
        }
        Ok(
            DesoAccount {
                public_key: self.public_key.unwrap(),
                seed_hex_key: self.seed_hex_key.unwrap(),
                derived_public_key: self.derived_public_key,
                node: self.node.unwrap(),
            },
        )
    }
}

} // verus!
