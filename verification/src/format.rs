//! The records that the core hands out: credentials and sessions.
//!
//! Every field element in a record is written as the decimal text of its
//! representative. Attributes, thresholds and public values are kept as lists
//! in a fixed order, the order in which they were issued; a record is well
//! formed when no name occurs twice in one of its lists.

use crate::text::str_eq;
use vstd::prelude::*;
use vstd::string::*;

verus! {

/// What a credential holds for one attribute.
#[derive(Debug, Clone)]
pub struct AttributeData {
    /// The first share of the attribute.
    pub x1: String,
    /// The second share; the two shares add up to the attribute.
    pub x2: String,
    /// The blinding factor of the commitment.
    pub r: String,
    /// The base commitment to the attribute under `r`.
    pub c: String,
}

/// A named attribute of a credential.
#[derive(Debug, Clone)]
pub struct Attribute {
    pub name: String,
    pub data: AttributeData,
}

/// A credential as the issuer emits it.
#[derive(Debug, Clone)]
pub struct Credential {
    /// The unique identifier of the credential.
    pub credential_id: String,
    /// The issuer's public key, in hexadecimal.
    pub issuer_pk: String,
    /// The issuer's signature over the credential message, in hexadecimal.
    pub sig: String,
    /// The attributes, in the order in which they were committed to and signed.
    pub attributes: Vec<Attribute>,
}

/// What a session publishes for one attribute.
#[derive(Debug, Clone)]
pub struct SessionPublic {
    /// The session commitment.
    pub sc: String,
}

/// A named minimum that the holder wants to prove.
#[derive(Debug, Clone)]
pub struct Threshold {
    pub name: String,
    pub min: u64,
}

/// The public value of a session for one attribute.
#[derive(Debug, Clone)]
pub struct PublicValue {
    pub name: String,
    pub value: SessionPublic,
}

/// A session: a credential bound to one verifier under a fresh nonce.
#[derive(Debug, Clone)]
pub struct Session {
    pub verifier_id: String,
    /// The session nonce.
    pub nonce: String,
    /// The thresholds, in a fixed order.
    pub thresholds: Vec<Threshold>,
    /// One public value for each attribute of the credential, in its order.
    pub public: Vec<PublicValue>,
}

/// Whether no text occurs twice in `names`.
pub open spec fn distinct_names(names: Seq<Seq<char>>) -> bool {
    forall|i: int, j: int| 0 <= i < j < names.len() ==> names[i] != names[j]
}

impl Credential {
    /// The names of the attributes, in order.
    pub open spec fn names(&self) -> Seq<Seq<char>> {
        Seq::new(self.attributes@.len(), |i: int| self.attributes@[i].name@)
    }

    /// A credential is well formed when no attribute name occurs twice.
    pub open spec fn wf(&self) -> bool {
        distinct_names(self.names())
    }

    /// The position of the first attribute called `name`, if there is one.
    pub fn position(&self, name: &str) -> (found: Option<usize>)
        ensures
            match found {
                Some(i) => {
                    &&& i < self.attributes@.len()
                    &&& self.attributes@[i as int].name@ == name@
                    &&& forall|j: int| 0 <= j < i ==> self.attributes@[j].name@ != name@
                },
                None => forall|j: int|
                    0 <= j < self.attributes@.len() ==> self.attributes@[j].name@ != name@,
            },
    {
        let mut i: usize = 0;
        while i < self.attributes.len()
            invariant
                i <= self.attributes@.len(),
                forall|j: int| 0 <= j < i ==> self.attributes@[j].name@ != name@,
            decreases self.attributes@.len() - i,
        {
            if str_eq(self.attributes[i].name.as_str(), name) {
                return Some(i);
            }
            i = i + 1;
        }
        None
    }

    /// The data of the first attribute called `name`, if there is one.
    pub fn attribute(&self, name: &str) -> (found: Option<&AttributeData>)
        ensures
            match found {
                Some(data) => exists|i: int|
                    {
                        &&& 0 <= i < self.attributes@.len()
                        &&& self.attributes@[i].name@ == name@
                        &&& #[trigger] self.attributes@[i].data == *data
                        &&& forall|j: int| 0 <= j < i ==> self.attributes@[j].name@ != name@
                    },
                None => forall|j: int|
                    0 <= j < self.attributes@.len() ==> self.attributes@[j].name@ != name@,
            },
    {
        match self.position(name) {
            Some(i) => Some(&self.attributes[i].data),
            None => None,
        }
    }
}

impl Session {
    /// The names of the public values, in order.
    pub open spec fn public_names(&self) -> Seq<Seq<char>> {
        Seq::new(self.public@.len(), |i: int| self.public@[i].name@)
    }

    /// The names of the thresholds, in order.
    pub open spec fn threshold_names(&self) -> Seq<Seq<char>> {
        Seq::new(self.thresholds@.len(), |i: int| self.thresholds@[i].name@)
    }

    /// A session is well formed when no name occurs twice among its public
    /// values, nor among its thresholds.
    pub open spec fn wf(&self) -> bool {
        distinct_names(self.public_names()) && distinct_names(self.threshold_names())
    }

    /// The session commitment published for the first attribute called
    /// `name`, if there is one.
    pub fn commitment(&self, name: &str) -> (found: Option<&SessionPublic>)
        ensures
            match found {
                Some(value) => exists|i: int|
                    {
                        &&& 0 <= i < self.public@.len()
                        &&& self.public@[i].name@ == name@
                        &&& #[trigger] self.public@[i].value == *value
                        &&& forall|j: int| 0 <= j < i ==> self.public@[j].name@ != name@
                    },
                None => forall|j: int| 0 <= j < self.public@.len() ==> self.public@[j].name@ != name@,
            },
    {
        let mut i: usize = 0;
        while i < self.public.len()
            invariant
                i <= self.public@.len(),
                forall|j: int| 0 <= j < i ==> self.public@[j].name@ != name@,
            decreases self.public@.len() - i,
        {
            if str_eq(self.public[i].name.as_str(), name) {
                return Some(&self.public[i].value);
            }
            i = i + 1;
        }
        None
    }

    /// The minimum of the first threshold called `name`, if there is one.
    pub fn threshold(&self, name: &str) -> (found: Option<u64>)
        ensures
            match found {
                Some(min) => exists|i: int|
                    {
                        &&& 0 <= i < self.thresholds@.len()
                        &&& self.thresholds@[i].name@ == name@
                        &&& #[trigger] self.thresholds@[i].min == min
                        &&& forall|j: int| 0 <= j < i ==> self.thresholds@[j].name@ != name@
                    },
                None => forall|j: int|
                    0 <= j < self.thresholds@.len() ==> self.thresholds@[j].name@ != name@,
            },
    {
        let mut i: usize = 0;
        while i < self.thresholds.len()
            invariant
                i <= self.thresholds@.len(),
                forall|j: int| 0 <= j < i ==> self.thresholds@[j].name@ != name@,
            decreases self.thresholds@.len() - i,
        {
            if str_eq(self.thresholds[i].name.as_str(), name) {
                return Some(self.thresholds[i].min);
            }
            i = i + 1;
        }
        None
    }
}

} // verus!
