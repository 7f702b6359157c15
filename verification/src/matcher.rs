//! Content matching between a pending request and a candidate response.
//!
//! The transport pairs envelopes by connection and correlation id already,
//! so content matching is a secondary safety net. For most operation kinds
//! any response is accepted. Kinds whose requests target a content-addressed
//! resource check the content: a block query response must echo the
//! requested hash in its block data, and an error response must mention the
//! requested hash in its message — the only channel available when the error
//! path does not echo structured fields.

use vstd::prelude::*;
use vstd::string::StrSliceExecFns;

use crate::rustweaved_request::{self, RustweavedRequest};
use crate::rustweaved_response::{self, RustweavedResponse};

verus! {

/// Whether `needle` occurs as a contiguous subsequence of `haystack`.
pub open spec fn spec_contains(haystack: Seq<char>, needle: Seq<char>) -> bool {
    exists|i: int|
        0 <= i && i + needle.len() <= haystack.len() && #[trigger] haystack.subrange(
            i,
            i + needle.len(),
        ) == needle
}

/// Whether `needle` occurs at offset `i` of `haystack`.
spec fn matches_at(haystack: Seq<char>, needle: Seq<char>, i: int) -> bool {
    haystack.subrange(i, i + needle.len()) == needle
}

/// Compares `needle` against `haystack` at offset `start`.
fn matches_at_index(haystack: &str, needle: &str, start: usize) -> (r: bool)
    requires
        start + needle@.len() <= haystack@.len(),
        haystack@.len() <= usize::MAX,
    ensures
        r == matches_at(haystack@, needle@, start as int),
{
    let n = needle.unicode_len();
    let mut j: usize = 0;
    while j < n
        invariant
            n == needle@.len(),
            0 <= j <= n,
            start + n <= haystack@.len(),
            haystack@.len() <= usize::MAX,
            forall|k: int| 0 <= k < j ==> haystack@[start + k] == needle@[k],
        decreases n - j,
    {
        if haystack.get_char(start + j) != needle.get_char(j) {
            assert(haystack@.subrange(start as int, start + n) != needle@) by {
                assert(haystack@.subrange(start as int, start + n)[j as int] != needle@[j as int]);
            }
            return false;
        }
        j += 1;
    }
    assert(haystack@.subrange(start as int, start + n) =~= needle@);
    true
}

/// True exactly when `needle` occurs as a substring of `haystack`.
pub fn contains_str(haystack: &str, needle: &str) -> (r: bool)
    ensures
        r == spec_contains(haystack@, needle@),
{
    let h = haystack.unicode_len();
    let n = needle.unicode_len();
    if n > h {
        assert(!spec_contains(haystack@, needle@));
        return false;
    }
    if n == 0 {
        assert(haystack@.subrange(0, 0 + needle@.len() as int) =~= needle@);
        return true;
    }
    let mut i: usize = 0;
    while i <= h - n
        invariant
            h == haystack@.len(),
            n == needle@.len(),
            0 < n <= h,
            0 <= i <= h - n + 1,
            forall|k: int| 0 <= k < i ==> !matches_at(haystack@, needle@, k),
        decreases h - n + 1 - i,
    {
        if matches_at_index(haystack, needle, i) {
            assert(spec_contains(haystack@, needle@));
            return true;
        }
        i += 1;
    }
    assert forall|k: int|
        0 <= k && k + needle@.len() <= haystack@.len() implies #[trigger] haystack@.subrange(
        k,
        k + needle@.len(),
    ) != needle@ by {
        assert(!matches_at(haystack@, needle@, k));
    }
    false
}

impl rustweaved_request::Payload {
    /// Whether `response` correlates with this pending request payload.
    ///
    /// Default policy: any response matches. A block query matches only a
    /// block query response whose block echoes the requested hash (a block
    /// without verbose data is accepted), or whose error message contains
    /// the requested hash.
    pub open spec fn spec_is_matching(
        self,
        response: rustweaved_response::Payload,
    ) -> bool {
        match self {
            rustweaved_request::Payload::GetBlockRequest(request) => match response {
                rustweaved_response::Payload::GetBlockResponse(response) => match response.block {
                    Some(block) => match block.verbose_data {
                        Some(verbose_data) => verbose_data.hash@ == request.hash@,
                        None => true,
                    },
                    None => match response.error {
                        Some(error) => spec_contains(error.message@, request.hash@),
                        None => false,
                    },
                },
                _ => false,
            },
            _ => true,
        }
    }

    /// Decides whether `response` correlates with this pending request
    /// payload, applying the kind-specific content rules.
    pub fn is_matching(&self, response: &rustweaved_response::Payload) -> (r: bool)
        ensures
            r == self.spec_is_matching(*response),
    {
        match self {
            rustweaved_request::Payload::GetBlockRequest(request) => {
                if let rustweaved_response::Payload::GetBlockResponse(response) = response {
                    if let Some(block) = &response.block {
                        if let Some(verbose_data) = &block.verbose_data {
                            return verbose_data.hash == request.hash;
                        }
                        return true;
                    } else if let Some(error) = &response.error {
                        return contains_str(error.message.as_str(), request.hash.as_str());
                    }
                }
                false
            },
            _ => true,
        }
    }
}

impl RustweavedRequest {
    /// Whether `response` correlates with this pending request envelope:
    /// both envelopes must carry a payload and the payloads must match.
    pub open spec fn spec_is_matching(self, response: RustweavedResponse) -> bool {
        match (self.payload, response.payload) {
            (Some(request), Some(response)) => request.spec_is_matching(response),
            _ => false,
        }
    }

    /// Decides whether `response` correlates with this pending request
    /// envelope.
    pub fn is_matching(&self, response: &RustweavedResponse) -> (r: bool)
        ensures
            r == self.spec_is_matching(*response),
    {
        if let Some(response_payload) = &response.payload {
            if let Some(request_payload) = &self.payload {
                return request_payload.is_matching(response_payload);
            }
        }
        false
    }
}

} // verus!
