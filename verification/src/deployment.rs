//! The deployment descriptor: where a dapp was deployed, and in which block.
//!
//! On the wire it is a JSON object with the keys `address` and `blockHash`,
//! each a hexadecimal string. Both are required; other keys are ignored.

use crate::decode::{
    binary_field, decode_binary, syntax_error, syntax_fault, DecodeError, DecodeFault, JsonDecode,
};
use crate::hex::encode_bytes;
use crate::hex_array::{lemma_sized_round_trip, Address, ADDRESS_SIZE, HASH_SIZE};
use crate::json::{json_object, lookup, member, parse_object, Member, MemberView, Refusal};
use crate::loader::{loaded, ConfigFault, FileRead};
use std::path::PathBuf;
use vstd::prelude::*;
use vstd::string::*;

verus! {

/// Where and when a dapp was deployed.
#[derive(Clone, Debug, PartialEq, Eq)]
pub struct DappDeployment {
    /// The address of the dapp; `address` on the wire.
    pub dapp_address: Address,
    /// The hash of the block it was deployed in; `blockHash` on the wire.
    pub dapp_deploy_block_hash: crate::hex_array::Hash,
}

/// The mathematical reading of a [`DappDeployment`]: the bytes of its two
/// fields.
pub struct DeploymentView {
    pub dapp_address: Seq<u8>,
    pub dapp_deploy_block_hash: Seq<u8>,
}

impl View for DappDeployment {
    type V = DeploymentView;

    open spec fn view(&self) -> DeploymentView {
        DeploymentView {
            dapp_address: self.dapp_address@,
            dapp_deploy_block_hash: self.dapp_deploy_block_hash@,
        }
    }
}

/// The wire key of the address.
pub open spec fn address_key() -> Seq<char> {
    "address"@
}

/// The wire key of the block hash.
pub open spec fn block_hash_key() -> Seq<char> {
    "blockHash"@
}

/// What the two members of a document decode to. The address is looked at
/// first, so of two faults the one of the address is reported.
pub open spec fn decode_members(address: MemberView, block_hash: MemberView) -> Result<
    DeploymentView,
    DecodeFault,
> {
    match decode_binary(address, address_key(), ADDRESS_SIZE as nat) {
        Err(fault) => Err(fault),
        Ok(dapp_address) => match decode_binary(block_hash, block_hash_key(), HASH_SIZE as nat) {
            Err(fault) => Err(fault),
            Ok(dapp_deploy_block_hash) => Ok(
                DeploymentView { dapp_address, dapp_deploy_block_hash },
            ),
        },
    }
}

/// What a document decodes to: where the parser refuses it, the syntax
/// fault with the parser's line, column and words; else what its members
/// under the two wire keys decode to.
pub open spec fn decode_document(document: Seq<u8>) -> Result<DeploymentView, DecodeFault> {
    match json_object(document) {
        Err(refusal) => Err(syntax_fault(refusal)),
        Ok(members) => decode_members(
            lookup(members, address_key()),
            lookup(members, block_hash_key()),
        ),
    }
}

/// The JSON text that a descriptor is written as.
pub open spec fn encode_document(deployment: DeploymentView) -> Seq<char> {
    "{\"address\":\""@ + encode_bytes(deployment.dapp_address) + "\",\"blockHash\":\""@
        + encode_bytes(deployment.dapp_deploy_block_hash) + "\"}"@
}

impl DappDeployment {
    /// Builds a descriptor from what a document holds under `address` and
    /// under `blockHash`.
    pub fn from_members(address: &Member, block_hash: &Member) -> (res: Result<Self, DecodeError>)
        ensures
            match res {
                Ok(deployment) => decode_members(address@, block_hash@) == Ok::<
                    DeploymentView,
                    DecodeFault,
                >(deployment@),
                Err(e) => decode_members(address@, block_hash@) == Err::<
                    DeploymentView,
                    DecodeFault,
                >(e@),
            },
    {
        let dapp_address = match binary_field::<ADDRESS_SIZE>(address, "address") {
            Ok(value) => value,
            Err(e) => {
                return Err(e);
            },
        };
        let dapp_deploy_block_hash = match binary_field::<HASH_SIZE>(block_hash, "blockHash") {
            Ok(value) => value,
            Err(e) => {
                return Err(e);
            },
        };
        Ok(DappDeployment { dapp_address, dapp_deploy_block_hash })
    }

    /// Writes the descriptor as a JSON document.
    pub fn to_json(&self) -> (res: String)
        ensures
            res@ == encode_document(self@),
    {
        let mut text = String::from_str("{\"address\":\"");
        let address = self.dapp_address.to_hex();
        text.append(address.as_str());
        text.append("\",\"blockHash\":\"");
        let block_hash = self.dapp_deploy_block_hash.to_hex();
        text.append(block_hash.as_str());
        text.append("\"}");
        text
    }
}

impl JsonDecode for DappDeployment {
    open spec fn decoded(document: Seq<u8>) -> Result<DeploymentView, DecodeFault> {
        decode_document(document)
    }

    fn decode(document: &[u8]) -> (res: Result<Self, DecodeError>) {
        match parse_object(document) {
            Err(error) => Err(syntax_error(&error)),
            Ok(object) => {
                let address = member(&object, "address");
                let block_hash = member(&object, "blockHash");
                DappDeployment::from_members(&address, &block_hash)
            },
        }
    }
}

/// The members of the object that a descriptor is written as: its two
/// wire keys, each with the hexadecimal text of its field.
pub open spec fn written_members(deployment: DeploymentView) -> Map<Seq<char>, Option<Seq<char>>> {
    Map::<Seq<char>, Option<Seq<char>>>::empty().insert(
        address_key(),
        Some(encode_bytes(deployment.dapp_address)),
    ).insert(block_hash_key(), Some(encode_bytes(deployment.dapp_deploy_block_hash)))
}

/// Round trip: the two texts that a descriptor is written with decode to
/// the descriptor, and so does every document that the parser reads as the
/// object with those two members.
pub proof fn lemma_round_trip(deployment: DappDeployment, document: Seq<u8>)
    ensures
        decode_members(
            MemberView::Text(encode_bytes(deployment@.dapp_address)),
            MemberView::Text(encode_bytes(deployment@.dapp_deploy_block_hash)),
        ) == Ok::<DeploymentView, DecodeFault>(deployment@),
        json_object(document) == Ok::<Map<Seq<char>, Option<Seq<char>>>, Refusal>(
            written_members(deployment@),
        ) ==> decode_document(document) == Ok::<DeploymentView, DecodeFault>(deployment@),
{
    deployment.dapp_address.lemma_len();
    deployment.dapp_deploy_block_hash.lemma_len();
    lemma_sized_round_trip(deployment@.dapp_address);
    lemma_sized_round_trip(deployment@.dapp_deploy_block_hash);
    reveal_strlit("address");
    reveal_strlit("blockHash");
    assert(address_key() != block_hash_key()) by {
        assert(address_key().len() == 7);
        assert(block_hash_key().len() == 9);
    }
}

/// A document that the parser refuses is a parse error with the path that
/// was asked for, and its cause is the syntax fault that says what the
/// parser said.
pub proof fn lemma_refused_document(path: PathBuf, document: Vec<u8>)
    ensures
        json_object(document@) matches Err(refusal) ==> loaded::<DappDeployment>(
            path,
            FileRead::Contents(document),
        ) == Err::<DeploymentView, ConfigFault>(
            ConfigFault::JsonParseError { path, cause: syntax_fault(refusal) },
        ),
{
}

/// A well-formed document without the key `blockHash` is a parse error with
/// the path that was asked for; where its address is in order, the cause is
/// the missing key.
pub proof fn lemma_missing_block_hash(
    path: PathBuf,
    document: Vec<u8>,
    members: Map<Seq<char>, Option<Seq<char>>>,
)
    ensures
        json_object(document@) == Ok::<Map<Seq<char>, Option<Seq<char>>>, Refusal>(members)
            && !members.contains_key(block_hash_key()) ==> ({
            &&& loaded::<DappDeployment>(path, FileRead::Contents(document)) matches Err(
                ConfigFault::JsonParseError { path: reported, cause },
            )
            &&& reported == path
            &&& decode_binary(lookup(members, address_key()), address_key(), ADDRESS_SIZE as nat)
                is Ok ==> cause == DecodeFault::MissingField { field: block_hash_key() }
        }),
{
}

} // verus!
