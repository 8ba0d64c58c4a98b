//! Fees of a contract chain, and the record that the chain keeps of a
//! contract.

use crate::decoder::Decoder;
use crate::derive::record::lemma_parse_all_step;
use crate::derive::record::lemma_parse_all_stuck;
use crate::derive::record::lemma_wire_all_push;
use crate::derive::record::parse_all;
use crate::derive::record::wire_all;
use crate::encoder::Encoder;
use crate::traits::encode::Decode;
use crate::traits::encode::Encode;
use crate::types::ident::ScAgentId;
use crate::types::ident::ScHash;
use crate::types::ident::ScHname;
use crate::types::tag::ScTag;
use crate::types::value::lemma_parse_in_range;
use crate::types::value::Value;
use vstd::prelude::*;
use vstd::utf8::encode_utf8;

verus! {

/// A parameter of a fee request.
#[derive(Clone, Copy, Debug, PartialEq, Eq, Structural)]
pub enum FeeParam {
    /// The fee charged by the contract owner.
    OwnerFee,
    /// The fee charged by the contract validator.
    ValidatorFee,
}

impl FeeParam {
    /// Returns the key under which the parameter is handed to the root
    /// contract.
    pub fn key(self) -> (key: &'static str)
        ensures
            key@ == match self {
                FeeParam::OwnerFee => "$$ownerfee$$"@,
                FeeParam::ValidatorFee => "$$validatorfee$$"@,
            },
    {
        match self {
            FeeParam::OwnerFee => "$$ownerfee$$",
            FeeParam::ValidatorFee => "$$validatorfee$$",
        }
    }
}

/// A simple wrapper around the core root contract.
#[derive(Clone, Copy, Debug)]
pub struct Root;

impl Root {
    /// Returns the name of the contract.
    pub fn name() -> (name: &'static str)
        ensures
            name@ == "root"@,
    {
        "root"
    }

    /// Returns the description of the contract.
    pub fn description() -> (text: &'static str)
        ensures
            text@ == "Root Contract"@,
    {
        "Root Contract"
    }

    /// Returns what is sent to set the default fee of the chain. A fee that
    /// sets nothing is refused.
    pub fn set_default_fee(fee: Fee) -> (params: Result<Vec<(FeeParam, i64)>, FeeError>)
        ensures
            match params {
                Ok(params) => params@ == fee.spec_params() && !(fee.owner_fee().is_none()
                    && fee.validator_fee().is_none()),
                Err(error) => error == FeeError::EmptyDefaultFee && fee.owner_fee().is_none()
                    && fee.validator_fee().is_none(),
            },
    {
        if fee.is_empty() {
            Err(FeeError::EmptyDefaultFee)
        } else {
            Ok(fee.params())
        }
    }

    /// Returns a contract-specific subset of the API.
    pub fn contract(contract: &ScHname) -> (api: ContractAPI<'_>)
        ensures
            api.spec_contract() == contract@,
    {
        ContractAPI { contract }
    }
}

/// Contract-specific functionality of the root contract.
#[derive(Clone, Copy, Debug)]
pub struct ContractAPI<'a> {
    contract: &'a ScHname,
}

impl<'a> ContractAPI<'a> {
    /// The hash name of the contract.
    pub closed spec fn spec_contract(&self) -> Seq<u8> {
        self.contract@
    }

    /// Returns the hash name of the contract.
    pub fn contract(&self) -> (contract: &'a ScHname)
        ensures
            contract@ == self.spec_contract(),
    {
        self.contract
    }

    /// Returns what is sent, beside the hash name of the contract, to set
    /// the fee of the contract. A fee that sets nothing is refused.
    pub fn set_fee(&self, fee: Fee) -> (params: Result<Vec<(FeeParam, i64)>, FeeError>)
        ensures
            match params {
                Ok(params) => params@ == fee.spec_params() && !(fee.owner_fee().is_none()
                    && fee.validator_fee().is_none()),
                Err(error) => error == FeeError::EmptyContractFee && fee.owner_fee().is_none()
                    && fee.validator_fee().is_none(),
            },
    {
        if fee.is_empty() {
            Err(FeeError::EmptyContractFee)
        } else {
            Ok(fee.params())
        }
    }
}

/// Why a request to set fees is refused.
#[derive(Clone, Copy, Debug, PartialEq, Eq, Structural)]
pub enum FeeError {
    /// The default fee of the chain was to be set, and the fee sets nothing.
    EmptyDefaultFee,
    /// The fee of a contract was to be set, and the fee sets nothing.
    EmptyContractFee,
}

impl FeeError {
    /// Returns the reason in words.
    pub fn message(self) -> (text: &'static str)
        ensures
            text@ == match self {
                FeeError::EmptyDefaultFee => "invalid default fee: empty"@,
                FeeError::EmptyContractFee => "invalid contract fee: empty"@,
            },
    {
        match self {
            FeeError::EmptyDefaultFee => "invalid default fee: empty",
            FeeError::EmptyContractFee => "invalid contract fee: empty",
        }
    }
}

/// What is needed to deploy a new smart contract to the chain.
#[derive(Clone, Copy, Debug)]
pub struct Deploy<'a> {
    program: &'a ScHash,
    name: &'a str,
    description: Option<&'a str>,
}

impl<'a> Deploy<'a> {
    /// The hash of the program to deploy.
    pub closed spec fn spec_program(&self) -> Seq<u8> {
        self.program@
    }

    /// The name of the new contract.
    pub closed spec fn spec_name(&self) -> Seq<char> {
        self.name@
    }

    /// The description of the new contract, if one is set.
    pub closed spec fn spec_description(&self) -> Option<Seq<char>> {
        match self.description {
            Some(text) => Some(text@),
            None => None,
        }
    }

    /// Starts the deployment of `program` under `name`, without a
    /// description.
    pub fn new(program: &'a ScHash, name: &'a str) -> (deploy: Self)
        ensures
            deploy.spec_program() == program@,
            deploy.spec_name() == name@,
            deploy.spec_description().is_none(),
    {
        Self { program, name, description: None }
    }

    /// Sets the description.
    pub fn description(self, value: &'a str) -> (deploy: Self)
        ensures
            deploy.spec_program() == self.spec_program(),
            deploy.spec_name() == self.spec_name(),
            deploy.spec_description() == Some(value@),
    {
        Self { program: self.program, name: self.name, description: Some(value) }
    }

    /// Returns the hash of the program to deploy.
    pub fn program(&self) -> (program: &'a ScHash)
        ensures
            program@ == self.spec_program(),
    {
        self.program
    }

    /// Returns the name of the new contract.
    pub fn name(&self) -> (name: &'a str)
        ensures
            name@ == self.spec_name(),
    {
        self.name
    }

    /// Returns the description that is handed to the chain: the one that
    /// was set, or `N/A` where none was.
    pub fn described(&self) -> (text: &'a str)
        ensures
            text@ == match self.spec_description() {
                Some(text) => text,
                None => "N/A"@,
            },
    {
        match self.description {
            Some(text) => text,
            None => "N/A",
        }
    }
}

/// Fees applied to a contract chain.
#[derive(Clone, Copy, Debug, Hash, PartialEq, Eq)]
pub struct Fee {
    owner: Option<u32>,
    validator: Option<u32>,
}

impl Fee {
    /// The fee of the owner, if one is set.
    pub closed spec fn owner_fee(self) -> Option<u32> {
        self.owner
    }

    /// The fee of the validator, if one is set.
    pub closed spec fn validator_fee(self) -> Option<u32> {
        self.validator
    }

    /// The values that the fee sets, in the order in which they are handed
    /// over: the owner's fee, then the validator's, each only where it is
    /// set. Both are filed under the owner's key, so where both are set the
    /// validator's value is the one that stays.
    pub open spec fn spec_params(self) -> Seq<(FeeParam, i64)> {
        let owner = match self.owner_fee() {
            Some(value) => seq![(FeeParam::OwnerFee, value as i64)],
            None => Seq::<(FeeParam, i64)>::empty(),
        };
        let validator = match self.validator_fee() {
            Some(value) => seq![(FeeParam::OwnerFee, value as i64)],
            None => Seq::<(FeeParam, i64)>::empty(),
        };
        owner + validator
    }

    /// Creates a fee that sets nothing.
    pub fn new() -> (fee: Self)
        ensures
            fee.owner_fee().is_none(),
            fee.validator_fee().is_none(),
    {
        Self { owner: None, validator: None }
    }

    /// Sets the fee of the owner.
    pub fn owner(self, value: u32) -> (fee: Self)
        ensures
            fee.owner_fee() == Some(value),
            fee.validator_fee() == self.validator_fee(),
    {
        Self { owner: Some(value), validator: self.validator }
    }

    /// Sets the fee of the validator.
    pub fn validator(self, value: u32) -> (fee: Self)
        ensures
            fee.owner_fee() == self.owner_fee(),
            fee.validator_fee() == Some(value),
    {
        Self { owner: self.owner, validator: Some(value) }
    }

    /// Returns `true` if the fee sets nothing.
    pub fn is_empty(&self) -> (empty: bool)
        ensures
            empty == (self.owner_fee().is_none() && self.validator_fee().is_none()),
    {
        self.owner.is_none() && self.validator.is_none()
    }

    /// Returns the values that the fee adds to a request, in the order in
    /// which they are set.
    pub fn params(&self) -> (params: Vec<(FeeParam, i64)>)
        ensures
            params@ == self.spec_params(),
            params@.len() == 0 <==> self.owner_fee().is_none() && self.validator_fee().is_none(),
    {
        let mut params: Vec<(FeeParam, i64)> = Vec::new();
        if let Some(value) = self.owner {
            params.push((FeeParam::OwnerFee, value as i64));
        }
        if let Some(value) = self.validator {
            params.push((FeeParam::OwnerFee, value as i64));
        }
        assert(params@ =~= self.spec_params());
        params
    }
}

impl Default for Fee {
    fn default() -> (fee: Self)
        ensures
            fee.owner_fee().is_none(),
            fee.validator_fee().is_none(),
    {
        Fee::new()
    }
}

/// The on-chain record of a smart contract.
#[derive(Clone, Debug, PartialEq)]
pub struct ContractRecord {
    program_hash: ScHash,
    description: String,
    name: String,
    owner_fee: i64,
    validator_fee: i64,
    creator: ScAgentId,
}

/// What a `ContractRecord` holds, as mathematics.
pub struct ContractRecordModel {
    pub program_hash: Seq<u8>,
    pub description: Seq<char>,
    pub name: Seq<char>,
    pub owner_fee: i64,
    pub validator_fee: i64,
    pub creator: Seq<u8>,
}

/// The kinds of the fields of a contract record, in declaration order.
pub open spec fn record_kinds() -> Seq<ScTag> {
    seq![ScTag::Hash, ScTag::String, ScTag::String, ScTag::Int64, ScTag::Int64, ScTag::AgentId]
}

/// The fields of a contract record as values, in declaration order.
pub open spec fn record_fields(record: ContractRecordModel) -> Seq<Value> {
    seq![
        Value::Hash(record.program_hash),
        Value::String(record.description),
        Value::String(record.name),
        Value::Int64(record.owner_fee),
        Value::Int64(record.validator_fee),
        Value::AgentId(record.creator),
    ]
}

/// The text of a string value; empty for the other kinds.
pub open spec fn text_in(value: Value) -> Seq<char> {
    match value {
        Value::String(text) => text,
        _ => Seq::<char>::empty(),
    }
}

/// The number of an integer value; zero for the other kinds.
pub open spec fn number_in(value: Value) -> i64 {
    match value {
        Value::Int64(number) => number,
        _ => 0,
    }
}

/// The contract record whose fields are `fields`, in declaration order.
pub open spec fn record_of(fields: Seq<Value>) -> ContractRecordModel
    recommends
        fields.len() == 6,
{
    ContractRecordModel {
        program_hash: fields[0].ident_bytes(),
        description: text_in(fields[1]),
        name: text_in(fields[2]),
        owner_fee: number_in(fields[3]),
        validator_fee: number_in(fields[4]),
        creator: fields[5].ident_bytes(),
    }
}

impl View for ContractRecord {
    type V = ContractRecordModel;

    closed spec fn view(&self) -> ContractRecordModel {
        ContractRecordModel {
            program_hash: self.program_hash@,
            description: self.description@,
            name: self.name@,
            owner_fee: self.owner_fee,
            validator_fee: self.validator_fee,
            creator: self.creator@,
        }
    }
}

impl ContractRecord {
    /// Creates the record of a contract.
    pub fn new(
        program_hash: ScHash,
        description: String,
        name: String,
        owner_fee: i64,
        validator_fee: i64,
        creator: ScAgentId,
    ) -> (record: Self)
        ensures
            record@ == (ContractRecordModel {
                program_hash: program_hash@,
                description: description@,
                name: name@,
                owner_fee,
                validator_fee,
                creator: creator@,
            }),
    {
        Self { program_hash, description, name, owner_fee, validator_fee, creator }
    }

    /// Returns the hash of the program of the contract.
    pub fn program_hash(&self) -> (hash: &ScHash)
        ensures
            hash@ == self@.program_hash,
    {
        &self.program_hash
    }

    /// Returns the description of the contract.
    pub fn description(&self) -> (text: &str)
        ensures
            text@ == self@.description,
    {
        self.description.as_str()
    }

    /// Returns the name of the contract.
    pub fn name(&self) -> (text: &str)
        ensures
            text@ == self@.name,
    {
        self.name.as_str()
    }

    /// Returns the fee that the owner charges.
    pub fn owner_fee(&self) -> (fee: i64)
        ensures
            fee == self@.owner_fee,
    {
        self.owner_fee
    }

    /// Returns the fee that the validator charges.
    pub fn validator_fee(&self) -> (fee: i64)
        ensures
            fee == self@.validator_fee,
    {
        self.validator_fee
    }

    /// Returns the agent that created the contract.
    pub fn creator(&self) -> (agent: &ScAgentId)
        ensures
            agent@ == self@.creator,
    {
        &self.creator
    }
}

impl Encode for ContractRecord {
    open spec fn wire(&self) -> Seq<u8> {
        wire_all(record_fields(self@))
    }

    open spec fn fits(&self) -> bool {
        encode_utf8(self@.description).len() <= u32::MAX && encode_utf8(self@.name).len()
            <= u32::MAX
    }

    fn encode(&self, encoder: &mut Encoder) {
        assert(self.fits() ==> self.description.fits() && self.name.fits());
        self.program_hash.encode(encoder);
        self.description.encode(encoder);
        self.name.encode(encoder);
        self.owner_fee.encode(encoder);
        self.validator_fee.encode(encoder);
        self.creator.encode(encoder);
        proof {
            let fields = record_fields(self@);
            lemma_wire_all_push(fields.take(0), fields[0]);
            lemma_wire_all_push(fields.take(1), fields[1]);
            lemma_wire_all_push(fields.take(2), fields[2]);
            lemma_wire_all_push(fields.take(3), fields[3]);
            lemma_wire_all_push(fields.take(4), fields[4]);
            lemma_wire_all_push(fields.take(5), fields[5]);
            assert(fields.take(0).push(fields[0]) =~= fields.take(1));
            assert(fields.take(1).push(fields[1]) =~= fields.take(2));
            assert(fields.take(2).push(fields[2]) =~= fields.take(3));
            assert(fields.take(3).push(fields[3]) =~= fields.take(4));
            assert(fields.take(4).push(fields[4]) =~= fields.take(5));
            assert(fields.take(5).push(fields[5]) =~= fields);
            assert(wire_all(fields.take(0)) =~= Seq::<u8>::empty());
            assert(encoder@ =~= old(encoder)@ + self.wire());
        }
    }
}

impl Decode for ContractRecord {
    open spec fn parse(bytes: Seq<u8>) -> Option<(ContractRecordModel, nat)> {
        match parse_all(record_kinds(), bytes) {
            Some((fields, taken)) => Some((record_of(fields), taken)),
            None => None,
        }
    }

    fn complete(decoder: &Decoder<'_>) -> (whole: bool) {
        let ghost kinds = record_kinds();
        let ghost start = decoder.remaining();
        let mut probe: Decoder<'_> = decoder.fork();
        assert(kinds.skip(0) =~= kinds);
        assert(Self::parse(start).is_some() == parse_all(kinds, start).is_some());
        if !ScHash::complete(&probe) {
            proof {
                lemma_parse_all_stuck(kinds, 0, probe.remaining());
            }
            return false;
        }
        let ghost at = probe.remaining();
        let _ = ScHash::decode(&mut probe);
        proof {
            lemma_stepped(kinds, 0, at);
        }
        if !String::complete(&probe) {
            proof {
                lemma_parse_all_stuck(kinds, 1, probe.remaining());
            }
            return false;
        }
        let ghost at = probe.remaining();
        let _ = String::decode(&mut probe);
        proof {
            lemma_stepped(kinds, 1, at);
        }
        if !String::complete(&probe) {
            proof {
                lemma_parse_all_stuck(kinds, 2, probe.remaining());
            }
            return false;
        }
        let ghost at = probe.remaining();
        let _ = String::decode(&mut probe);
        proof {
            lemma_stepped(kinds, 2, at);
        }
        if !i64::complete(&probe) {
            proof {
                lemma_parse_all_stuck(kinds, 3, probe.remaining());
            }
            return false;
        }
        let ghost at = probe.remaining();
        let _ = i64::decode(&mut probe);
        proof {
            lemma_stepped(kinds, 3, at);
        }
        if !i64::complete(&probe) {
            proof {
                lemma_parse_all_stuck(kinds, 4, probe.remaining());
            }
            return false;
        }
        let ghost at = probe.remaining();
        let _ = i64::decode(&mut probe);
        proof {
            lemma_stepped(kinds, 4, at);
        }
        if !ScAgentId::complete(&probe) {
            proof {
                lemma_parse_all_stuck(kinds, 5, probe.remaining());
            }
            return false;
        }
        let ghost at = probe.remaining();
        let _ = ScAgentId::decode(&mut probe);
        proof {
            lemma_stepped(kinds, 5, at);
            assert(kinds.skip(6) =~= Seq::<ScTag>::empty());
        }
        true
    }

    fn decode(decoder: &mut Decoder<'_>) -> (value: Self) {
        let ghost kinds = record_kinds();
        let ghost start = decoder.remaining();
        proof {
            assert(kinds.skip(0) =~= kinds);
            assert(Self::parse(start).is_some() == parse_all(kinds, start).is_some());
            lemma_parse_all_step(kinds, 0, start);
            lemma_parse_in_range(kinds[0], start);
        }
        let program_hash: ScHash = ScHash::decode(decoder);
        let ghost at1 = decoder.remaining();
        proof {
            lemma_parse_all_step(kinds, 1, at1);
            lemma_parse_in_range(kinds[1], at1);
        }
        let description: String = String::decode(decoder);
        let ghost at2 = decoder.remaining();
        proof {
            lemma_parse_all_step(kinds, 2, at2);
            lemma_parse_in_range(kinds[2], at2);
        }
        let name: String = String::decode(decoder);
        let ghost at3 = decoder.remaining();
        proof {
            lemma_parse_all_step(kinds, 3, at3);
            lemma_parse_in_range(kinds[3], at3);
        }
        let owner_fee: i64 = i64::decode(decoder);
        let ghost at4 = decoder.remaining();
        proof {
            lemma_parse_all_step(kinds, 4, at4);
            lemma_parse_in_range(kinds[4], at4);
        }
        let validator_fee: i64 = i64::decode(decoder);
        let ghost at5 = decoder.remaining();
        proof {
            lemma_parse_all_step(kinds, 5, at5);
            lemma_parse_in_range(kinds[5], at5);
        }
        let creator: ScAgentId = ScAgentId::decode(decoder);
        proof {
            assert(kinds.skip(6) =~= Seq::<ScTag>::empty());
            assert(decoder.remaining() =~= start.skip(decoder.position() - old(decoder).position()));
        }
        ContractRecord { program_hash, description, name, owner_fee, validator_fee, creator }
    }
}

/// Reading a record field by field: the record of the kinds from `done` on is
/// whole exactly if, the next field being whole, the record of the kinds
/// after it is whole from where that field ends.
proof fn lemma_stepped(kinds: Seq<ScTag>, done: int, bytes: Seq<u8>)
    requires
        0 <= done < kinds.len(),
        Value::parse(kinds[done], bytes).is_some(),
    ensures
        parse_all(kinds.skip(done), bytes).is_some() == parse_all(
            kinds.skip(done + 1),
            bytes.skip(Value::parse(kinds[done], bytes).unwrap().1 as int),
        ).is_some(),
{
    assert(kinds.skip(done).drop_first() =~= kinds.skip(done + 1));
    assert(kinds.skip(done)[0] == kinds[done]);
}

} // verus!
