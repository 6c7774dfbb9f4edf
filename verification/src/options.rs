//! Options of the key-value operations, and how they are written on the wire.

use bytes::Bytes;
use vstd::prelude::*;
use vstd::utf8::encode_utf8;

use crate::error::EtcdError;
use crate::form::{
    contains_text, form_text, lemma_form_text_holds_each_pair, lemma_unreserved_component,
    pair_text, FormWriter, Pair,
};
use crate::request::{bytes_content, string_into_bytes};
use crate::text::{decimal_text, lemma_decimal_text_digits, u64_to_string};

verus! {

/// How a flag is spelled on the wire.
pub open spec fn bool_text(b: bool) -> Seq<char> {
    if b {
        "true"@
    } else {
        "false"@
    }
}

/// Spells a flag for the wire.
pub fn bool_to_str(b: bool) -> (r: &'static str)
    ensures
        r@ == bool_text(b),
{
    if b {
        "true"
    } else {
        "false"
    }
}

/// The pair for a field that may be absent: nothing when it is.
pub open spec fn optional_pair(name: Seq<char>, value: Option<Seq<char>>) -> Seq<Pair> {
    match value {
        Some(v) => seq![(name, v)],
        None => Seq::empty(),
    }
}

/// The wire spelling of an optional flag.
pub open spec fn optional_bool_text(value: Option<bool>) -> Option<Seq<char>> {
    match value {
        Some(b) => Some(bool_text(b)),
        None => None,
    }
}

/// The wire spelling of an optional number.
pub open spec fn optional_number_text(value: Option<u64>) -> Option<Seq<char>> {
    match value {
        Some(n) => Some(decimal_text(n as nat)),
        None => None,
    }
}

/// The content of an optional piece of text.
pub open spec fn optional_text<'a>(value: Option<&'a str>) -> Option<Seq<char>> {
    match value {
        Some(v) => Some(v@),
        None => None,
    }
}

/// Possible conditions for "compare and delete" and "compare and swap"
/// operations.
#[derive(Debug)]
pub struct ComparisonConditions<'a> {
    /// The etcd modified index the key must have before the operation is
    /// performed.
    pub modified_index: Option<u64>,
    /// The value the key must have before the operation is performed.
    pub value: Option<&'a str>,
}

impl<'a> ComparisonConditions<'a> {
    /// Whether both conditions are unset.
    pub open spec fn spec_is_empty(&self) -> bool {
        self.modified_index is None && self.value is None
    }

    /// Returns a boolean indicating whether or not both conditions are unset.
    #[verifier::when_used_as_spec(spec_is_empty)]
    pub fn is_empty(&self) -> (r: bool)
        ensures
            r == self.spec_is_empty(),
    {
        self.modified_index.is_none() && self.value.is_none()
    }

    /// The pairs that state the conditions: the index first, then the value.
    pub open spec fn pairs(&self) -> Seq<Pair> {
        optional_pair("prevIndex"@, optional_number_text(self.modified_index)) + optional_pair(
            "prevValue"@,
            optional_text(self.value),
        )
    }
}

/// Whether conditions are given and none of them is set: such a request is
/// refused before anything is sent.
pub open spec fn empty_conditions<'a>(conditions: Option<ComparisonConditions<'a>>) -> bool {
    conditions matches Some(c) && c.spec_is_empty()
}

/// The pairs for conditions that may be absent altogether.
pub open spec fn optional_condition_pairs<'a>(
    conditions: Option<ComparisonConditions<'a>>,
) -> Seq<Pair> {
    match conditions {
        Some(c) => c.pairs(),
        None => Seq::empty(),
    }
}

/// Controls the various different ways a delete operation can be performed.
#[derive(Debug)]
pub struct DeleteOptions<'a> {
    /// Conditions used for "compare and delete" operations.
    pub conditions: Option<ComparisonConditions<'a>>,
    /// Whether or not the key to be deleted is a directory.
    pub dir: Option<bool>,
    /// Whether or not keys within a directory should be deleted recursively.
    pub recursive: Option<bool>,
}

/// Controls the various different ways a get operation can be performed.
#[derive(Debug)]
pub struct GetOptions {
    /// Whether or not to use read linearization to avoid stale data.
    pub strong_consistency: bool,
    /// Whether or not keys within a directory should be included in the
    /// response.
    pub recursive: bool,
    /// Whether or not directory contents will be sorted within the response.
    pub sort: Option<bool>,
    /// Whether or not to wait for a change.
    pub wait: bool,
    /// The etcd index to use as a lower bound when watching a key.
    pub wait_index: Option<u64>,
}

/// Controls the various different ways a create, update, or set operation can
/// be performed.
#[derive(Debug)]
pub struct SetOptions<'a> {
    /// Conditions used for "compare and swap" operations.
    pub conditions: Option<ComparisonConditions<'a>>,
    /// Whether or not to use the "create in order" API.
    pub create_in_order: bool,
    /// Whether or not the key being operated on is or should be a directory.
    pub dir: Option<bool>,
    /// Whether or not the key being operated on must already exist.
    pub prev_exist: Option<bool>,
    /// Time to live in seconds.
    pub ttl: Option<u64>,
    /// New value for the key.
    pub value: Option<&'a str>,
    /// Whether the key is to be refreshed rather than set.
    pub refresh: bool,
}

impl<'a> Default for DeleteOptions<'a> {
    fn default() -> (r: Self)
        ensures
            r == (DeleteOptions { conditions: None, dir: None, recursive: None }),
    {
        DeleteOptions { conditions: None, dir: None, recursive: None }
    }
}

impl Default for GetOptions {
    fn default() -> (r: Self)
        ensures
            r == (GetOptions {
                strong_consistency: false,
                recursive: false,
                sort: None,
                wait: false,
                wait_index: None,
            }),
    {
        GetOptions {
            strong_consistency: false,
            recursive: false,
            sort: None,
            wait: false,
            wait_index: None,
        }
    }
}

impl<'a> Default for SetOptions<'a> {
    fn default() -> (r: Self)
        ensures
            r == (SetOptions {
                conditions: None,
                create_in_order: false,
                dir: None,
                prev_exist: None,
                ttl: None,
                value: None,
                refresh: false,
            }),
    {
        SetOptions {
            conditions: None,
            create_in_order: false,
            dir: None,
            prev_exist: None,
            ttl: None,
            value: None,
            refresh: false,
        }
    }
}

/// Writes the pairs of a set of conditions that holds at least one.
fn append_conditions<'a>(writer: &mut FormWriter, conditions: &ComparisonConditions<'a>)
    requires
        old(writer).wf(),
    ensures
        final(writer).wf(),
        final(writer).pairs() == old(writer).pairs() + conditions.pairs(),
{
    if let Some(modified_index) = conditions.modified_index {
        let text = u64_to_string(modified_index);
        writer.append_pair("prevIndex", text.as_str());
    }
    if let Some(value) = conditions.value {
        writer.append_pair("prevValue", value);
    }
}

impl GetOptions {
    /// The pairs of the query, in the order in which they are written.
    pub open spec fn pairs(&self) -> Seq<Pair> {
        seq![("recursive"@, bool_text(self.recursive))] + optional_pair(
            "sorted"@,
            optional_bool_text(self.sort),
        ) + optional_pair(
            "wait"@,
            if self.wait {
                Some("true"@)
            } else {
                None
            },
        ) + optional_pair("waitIndex"@, optional_number_text(self.wait_index))
    }

    /// Converts these options into the query of a get request.
    pub fn into_query_params(self) -> (query: String)
        ensures
            query@ == form_text(self.pairs()),
    {
        let mut writer = FormWriter::new();
        writer.append_pair("recursive", bool_to_str(self.recursive));
        let ghost with_recursive = writer.pairs();
        if let Some(sort) = self.sort {
            writer.append_pair("sorted", bool_to_str(sort));
        }
        let ghost with_sorted = writer.pairs();
        assert(with_sorted =~= with_recursive + optional_pair("sorted"@, optional_bool_text(self.sort)));
        if self.wait {
            writer.append_pair("wait", bool_to_str(true));
        }
        let ghost with_wait = writer.pairs();
        assert(with_wait =~= with_sorted + optional_pair(
            "wait"@,
            if self.wait {
                Some("true"@)
            } else {
                None
            },
        ));
        if let Some(wait_index) = self.wait_index {
            let text = u64_to_string(wait_index);
            writer.append_pair("waitIndex", text.as_str());
        }
        assert(writer.pairs() =~= with_wait + optional_pair(
            "waitIndex"@,
            optional_number_text(self.wait_index),
        ));
        writer.finish()
    }
}

impl<'a> DeleteOptions<'a> {
    /// The pairs of the query, in the order in which they are written.
    pub open spec fn pairs(&self) -> Seq<Pair> {
        optional_pair("recursive"@, optional_bool_text(self.recursive)) + optional_pair(
            "dir"@,
            optional_bool_text(self.dir),
        ) + optional_condition_pairs(self.conditions)
    }

    /// Converts these options into the query of a delete request. Conditions
    /// that are given but empty are refused.
    pub fn into_query_params(self) -> (r: Result<String, EtcdError>)
        ensures
            match r {
                Ok(query) => !empty_conditions(self.conditions) && query@ == form_text(
                    self.pairs(),
                ),
                Err(e) => empty_conditions(self.conditions) && e == EtcdError::InvalidConditions,
            },
    {
        let mut writer = FormWriter::new();
        if let Some(recursive) = self.recursive {
            writer.append_pair("recursive", bool_to_str(recursive));
        }
        let ghost with_recursive = writer.pairs();
        if let Some(dir) = self.dir {
            writer.append_pair("dir", bool_to_str(dir));
        }
        let ghost with_dir = writer.pairs();
        assert(with_dir =~= with_recursive + optional_pair("dir"@, optional_bool_text(self.dir)));
        if let Some(conditions) = self.conditions {
            if conditions.is_empty() {
                return Err(EtcdError::InvalidConditions);
            }
            append_conditions(&mut writer, &conditions);
        }
        Ok(writer.finish())
    }
}

impl<'a> SetOptions<'a> {
    /// Whether the request says that the key must or must not exist: as
    /// asked, and a refresh asks for an existing key where nothing else is
    /// said.
    pub open spec fn effective_prev_exist(&self) -> Option<bool> {
        match self.prev_exist {
            Some(p) => Some(p),
            None => if self.refresh {
                Some(true)
            } else {
                None
            },
        }
    }

    /// The pairs of the form, in the order in which they are written.
    pub open spec fn pairs(&self) -> Seq<Pair> {
        optional_pair("value"@, optional_text(self.value)) + optional_pair(
            "ttl"@,
            optional_number_text(self.ttl),
        ) + optional_pair("dir"@, optional_bool_text(self.dir)) + optional_pair(
            "prevExist"@,
            optional_bool_text(self.effective_prev_exist()),
        ) + optional_pair(
            "refresh"@,
            if self.refresh {
                Some("true"@)
            } else {
                None
            },
        ) + optional_condition_pairs(self.conditions)
    }

    /// Converts these options into the text of a form. Conditions that are
    /// given but empty are refused.
    pub fn into_form(self) -> (r: Result<String, EtcdError>)
        ensures
            match r {
                Ok(form) => !empty_conditions(self.conditions) && form@ == form_text(self.pairs()),
                Err(e) => empty_conditions(self.conditions) && e == EtcdError::InvalidConditions,
            },
    {
        let mut writer = FormWriter::new();
        if let Some(value) = self.value {
            writer.append_pair("value", value);
        }
        let ghost with_value = writer.pairs();
        if let Some(ttl) = self.ttl {
            let text = u64_to_string(ttl);
            writer.append_pair("ttl", text.as_str());
        }
        let ghost with_ttl = writer.pairs();
        assert(with_ttl =~= with_value + optional_pair("ttl"@, optional_number_text(self.ttl)));
        if let Some(dir) = self.dir {
            writer.append_pair("dir", bool_to_str(dir));
        }
        let ghost with_dir = writer.pairs();
        assert(with_dir =~= with_ttl + optional_pair("dir"@, optional_bool_text(self.dir)));
        let prev_exist = match self.prev_exist {
            Some(prev_exist) => Some(prev_exist),
            None => if self.refresh {
                Some(true)
            } else {
                None
            },
        };
        if let Some(prev_exist) = prev_exist {
            writer.append_pair("prevExist", bool_to_str(prev_exist));
        }
        let ghost with_prev_exist = writer.pairs();
        assert(with_prev_exist =~= with_dir + optional_pair(
            "prevExist"@,
            optional_bool_text(self.effective_prev_exist()),
        ));
        if self.refresh {
            writer.append_pair("refresh", bool_to_str(true));
        }
        let ghost with_refresh = writer.pairs();
        assert(with_refresh =~= with_prev_exist + optional_pair(
            "refresh"@,
            if self.refresh {
                Some("true"@)
            } else {
                None
            },
        ));
        if let Some(conditions) = self.conditions {
            if conditions.is_empty() {
                return Err(EtcdError::InvalidConditions);
            }
            append_conditions(&mut writer, &conditions);
        }
        Ok(writer.finish())
    }

    /// Converts these options into the body of a set request: the form, as
    /// bytes.
    pub fn into_request_body(self) -> (r: Result<Bytes, EtcdError>)
        ensures
            match r {
                Ok(body) => !empty_conditions(self.conditions) && bytes_content(body)
                    == encode_utf8(form_text(self.pairs())),
                Err(e) => empty_conditions(self.conditions) && e == EtcdError::InvalidConditions,
            },
    {
        match self.into_form() {
            Ok(form) => Ok(string_into_bytes(form)),
            Err(e) => Err(e),
        }
    }
}

/// A refresh that is given a time to live and says nothing of whether the
/// key exists states all three in its form: that the key must exist, that
/// this is a refresh, and the time to live.
pub proof fn lemma_refresh_form<'a>(options: SetOptions<'a>, ttl: u64)
    requires
        options.refresh,
        options.prev_exist is None,
        options.ttl == Some(ttl),
    ensures
        contains_text(form_text(options.pairs()), "prevExist=true"@),
        contains_text(form_text(options.pairs()), "refresh=true"@),
        contains_text(form_text(options.pairs()), "ttl="@ + decimal_text(ttl as nat)),
{
    reveal_strlit("prevExist");
    reveal_strlit("refresh");
    reveal_strlit("ttl");
    reveal_strlit("true");
    reveal_strlit("prevExist=true");
    reveal_strlit("refresh=true");
    reveal_strlit("ttl=");
    let pairs = options.pairs();
    let value = optional_pair("value"@, optional_text(options.value));
    let dir = optional_pair("dir"@, optional_bool_text(options.dir));
    let number = decimal_text(ttl as nat);
    let at_ttl = value.len() as int;
    let at_prev_exist = at_ttl + 1 + dir.len();
    let at_refresh = at_prev_exist + 1;
    lemma_form_text_holds_each_pair(pairs, at_ttl);
    lemma_form_text_holds_each_pair(pairs, at_prev_exist);
    lemma_form_text_holds_each_pair(pairs, at_refresh);
    lemma_decimal_text_digits(ttl as nat);
    lemma_unreserved_component("prevExist"@);
    lemma_unreserved_component("refresh"@);
    lemma_unreserved_component("ttl"@);
    lemma_unreserved_component("true"@);
    lemma_unreserved_component(number);
    assert(pair_text(("prevExist"@, "true"@)) =~= "prevExist=true"@);
    assert(pair_text(("refresh"@, "true"@)) =~= "refresh=true"@);
    assert(pair_text(("ttl"@, number)) =~= "ttl="@ + number);
}

} // verus!
