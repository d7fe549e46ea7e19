//! The read-query handlers: resolving headers and blocks by height,
//! hash or output commitment, the query-flag grammar of the block
//! endpoint, and the mapping of errors to HTTP status codes.
use vstd::prelude::*;
use crate::chain::{Chain, spec_find_block, spec_find_header, spec_find_output};
use crate::encoding::{
    bytes_of_hex, dec_digits_part, dec_value, from_hex, is_dec_string, is_hex_string, parse_u64,
    str_eq, u64_to_string,
};
use crate::hash::spec_hash_from_vec;
use crate::types::{
    matches_block_printable, matches_compact_printable, matches_header_printable,
    BlockHeaderPrintable, BlockPrintable, CompactBlockPrintable,
};

verus! {

/// Errors the read API hands back to the HTTP layer.
#[derive(Debug)]
pub enum ApiError {
    /// The request arguments make no sense.
    Argument(String),
    /// The requested entity is not known to the chain.
    NotFound(String),
    /// The chain could not serve the request.
    Internal(String),
}

/// The HTTP status code an API error maps to.
pub fn http_status(e: &ApiError) -> (r: u16)
    ensures
        e is Argument ==> r == 400,
        e is NotFound ==> r == 404,
        e is Internal ==> r == 500,
{
    match e {
        ApiError::Argument(_) => 400,
        ApiError::NotFound(_) => 404,
        ApiError::Internal(_) => 500,
    }
}

/// The HTTP status code a chain error maps to: bad data is the
/// client's fault, a missing entity is not found, a stopped node is
/// unavailable, and everything else is internal.
pub fn chain_error_status(e: &crate::error::Error) -> (r: u16)
    ensures
        r == ({
            let k = e.spec_kind();
            if k is Stopped {
                503u16
            } else if k is OutputNotFound || k is RangeproofNotFound || k is TxKernelNotFound {
                404u16
            } else if crate::error::spec_is_bad_data(k) {
                400u16
            } else {
                500u16
            }
        }),
{
    if matches!(e.kind(), crate::error::ErrorKind::Stopped) {
        503
    } else if matches!(
        e.kind(),
        crate::error::ErrorKind::OutputNotFound(_)
            | crate::error::ErrorKind::RangeproofNotFound(_)
            | crate::error::ErrorKind::TxKernelNotFound
    ) {
        404
    } else if e.is_bad_data() {
        400
    } else {
        500
    }
}

/// Whether `s` is a decimal height whose value fits an unsigned 64-bit
/// number.
pub open spec fn is_u64_value(s: Seq<char>) -> bool {
    is_dec_string(s) && dec_value(dec_digits_part(s)) <= u64::MAX
}

/// The height `s` denotes; meaningful under `is_u64_value`.
pub open spec fn spec_height_of(s: Seq<char>) -> int {
    dec_value(dec_digits_part(s))
}

/// Whether `s` is a well-formed hash string: exactly 64 hex digits.
pub open spec fn is_hash_string(s: Seq<char>) -> bool {
    s.len() == 64 && is_hex_string(s)
}

/// Whether `s` resolves as an unspent output commitment of `c`: 66 hex
/// digits denoting a commitment the unspent index knows.
pub open spec fn commit_query_resolves(c: Chain, s: Seq<char>) -> bool {
    &&& is_hex_string(s)
    &&& bytes_of_hex(s).len() == 33
    &&& spec_find_output(c.outputs@, bytes_of_hex(s)) is Some
}

/// The header the resolved commitment query leads to.
pub open spec fn commit_query_header(c: Chain, s: Seq<char>) -> crate::chain::BlockHeaderData {
    c.headers@[spec_find_output(c.outputs@, bytes_of_hex(s))->Some_0.height as int]
}

/// Gets block headers given either a hash, a height or an output
/// commitment.
pub struct HeaderHandler {
    /// The chain snapshot the handler reads.
    pub chain: Chain,
}

impl HeaderHandler {
    /// Resolve a header query string. Interpretations are tried in
    /// order: as an unspent output commitment, then as a height, then
    /// as a 64-hex hash; a string that fits none is an argument error.
    pub fn get_header(&self, input: String) -> (r: Result<BlockHeaderPrintable, ApiError>)
        requires
            self.chain.wf(),
        ensures
            commit_query_resolves(self.chain, input@) ==> r is Ok && matches_header_printable(
                r->Ok_0,
                commit_query_header(self.chain, input@),
            ),
            !commit_query_resolves(self.chain, input@) && is_u64_value(input@) ==> ({
                if spec_height_of(input@) < self.chain.headers@.len() {
                    r is Ok && matches_header_printable(
                        r->Ok_0,
                        self.chain.headers@[spec_height_of(input@)],
                    )
                } else {
                    r is Err && r->Err_0 is NotFound
                }
            }),
            !commit_query_resolves(self.chain, input@) && !is_u64_value(input@) && is_hash_string(
                input@,
            ) ==> (match spec_find_header(
                self.chain.headers@,
                spec_hash_from_vec(bytes_of_hex(input@)),
            ) {
                Some(hdr) => r is Ok && matches_header_printable(r->Ok_0, hdr),
                None => r is Err && r->Err_0 is NotFound,
            }),
            !commit_query_resolves(self.chain, input@) && !is_u64_value(input@)
                && !is_hash_string(input@) ==> r is Err && r->Err_0 is Argument,
    {
        // Will fail quick if the provided string isn't a commitment.
        match self.get_header_for_output(&input) {
            Ok(h) => {
                return Ok(h);
            },
            Err(_) => {},
        }
        match parse_u64(input.as_str()) {
            Some(height) => {
                match self.chain.get_header_by_height(height) {
                    Some(header) => {
                        return Ok(BlockHeaderPrintable::from_header(header));
                    },
                    None => {
                        let mut m = "Header for height ".to_owned();
                        m.append(u64_to_string(height).as_str());
                        m.append(" not found");
                        return Err(ApiError::NotFound(m));
                    },
                }
            },
            None => {},
        }
        match from_hex(input.as_str()) {
            Some(v) => {
                if v.len() == 32 {
                    let h = crate::hash::Hash::from_vec(&v);
                    match self.chain.get_block_header(&h) {
                        Some(header) => Ok(BlockHeaderPrintable::from_header(header)),
                        None => {
                            let mut m = "Block header for hash ".to_owned();
                            m.append(input.as_str());
                            m.append(" not found");
                            Err(ApiError::NotFound(m))
                        },
                    }
                } else {
                    let mut m = "Not a valid hash or height value ".to_owned();
                    m.append(input.as_str());
                    Err(ApiError::Argument(m))
                }
            },
            None => {
                let mut m = "Not a valid hash or height value ".to_owned();
                m.append(input.as_str());
                Err(ApiError::Argument(m))
            },
        }
    }

    /// Resolve a query string as an unspent output commitment and
    /// return the header of the block that created the output.
    pub fn get_header_for_output(&self, commit_id: &String) -> (r: Result<
        BlockHeaderPrintable,
        ApiError,
    >)
        requires
            self.chain.wf(),
        ensures
            r is Ok <==> commit_query_resolves(self.chain, commit_id@),
            r is Ok ==> matches_header_printable(
                r->Ok_0,
                commit_query_header(self.chain, commit_id@),
            ),
            !is_hex_string(commit_id@) ==> r is Err && r->Err_0 is Argument,
            is_hex_string(commit_id@) && !commit_query_resolves(self.chain, commit_id@) ==> r is Err
                && r->Err_0 is NotFound,
    {
        let v = match from_hex(commit_id.as_str()) {
            Some(v) => v,
            None => {
                let mut m = "Invalid commit ".to_owned();
                m.append(commit_id.as_str());
                return Err(ApiError::Argument(m));
            },
        };
        if v.len() != 33 {
            let mut m = "Commit id ".to_owned();
            m.append(commit_id.as_str());
            m.append(" not found");
            return Err(ApiError::NotFound(m));
        }
        match self.chain.get_header_for_output(&v) {
            Some(header) => Ok(BlockHeaderPrintable::from_header(header)),
            None => {
                let mut m = "Commit id ".to_owned();
                m.append(commit_id.as_str());
                m.append(" not found");
                Err(ApiError::NotFound(m))
            },
        }
    }

    /// Look a header up by its hash.
    pub fn get_header_v2(&self, h: &crate::hash::Hash) -> (r: Result<
        BlockHeaderPrintable,
        ApiError,
    >)
        ensures
            match spec_find_header(self.chain.headers@, h@) {
                Some(hdr) => r is Ok && matches_header_printable(r->Ok_0, hdr),
                None => r is Err && r->Err_0 is NotFound,
            },
    {
        match self.chain.get_block_header(h) {
            Some(header) => Ok(BlockHeaderPrintable::from_header(header)),
            None => {
                let mut m = "Block header for hash ".to_owned();
                m.append(h.to_hex().as_str());
                m.append(" not found");
                Err(ApiError::NotFound(m))
            },
        }
    }

    /// Resolve exactly one of a height, a hash or an output commitment
    /// to the hash of the header it denotes; giving none or more than
    /// one of them is an argument error.
    pub fn parse_inputs(
        &self,
        height: Option<u64>,
        hash: Option<crate::hash::Hash>,
        commit: Option<String>,
    ) -> (r: Result<crate::hash::Hash, ApiError>)
        requires
            self.chain.wf(),
        ensures
            parse_inputs_post(self.chain, height, hash, commit, r),
    {
        resolve_inputs(&self.chain, height, hash, commit)
    }
}

/// How many of the three query arguments were given.
pub open spec fn spec_args_given(
    height: Option<u64>,
    hash: Option<crate::hash::Hash>,
    commit: Option<String>,
) -> int {
    (if height is Some {
        1int
    } else {
        0int
    }) + (if hash is Some {
        1int
    } else {
        0int
    }) + (if commit is Some {
        1int
    } else {
        0int
    })
}

/// What resolving (height | hash | commit) to a header hash returns:
/// exactly one argument must be given; a height resolves through the
/// header index, a hash stands for itself, and a commitment resolves
/// through the unspent index to the header that created the output.
pub open spec fn parse_inputs_post(
    c: Chain,
    height: Option<u64>,
    hash: Option<crate::hash::Hash>,
    commit: Option<String>,
    r: Result<crate::hash::Hash, ApiError>,
) -> bool {
    &&& spec_args_given(height, hash, commit) != 1 ==> r is Err && r->Err_0 is Argument
    &&& (spec_args_given(height, hash, commit) == 1 && height is Some) ==> ({
        if height->Some_0 < c.headers@.len() {
            r is Ok && r->Ok_0@ == c.headers@[height->Some_0 as int].hash@
        } else {
            r is Err && r->Err_0 is NotFound
        }
    })
    &&& (spec_args_given(height, hash, commit) == 1 && hash is Some) ==> r is Ok && r->Ok_0@
        == hash->Some_0@
    &&& (spec_args_given(height, hash, commit) == 1 && commit is Some) ==> ({
        let s = commit->Some_0@;
        if !is_hex_string(s) {
            r is Err && r->Err_0 is Argument
        } else if commit_query_resolves(c, s) {
            r is Ok && r->Ok_0@ == commit_query_header(c, s).hash@
        } else {
            r is Err && r->Err_0 is NotFound
        }
    })
}

fn resolve_inputs(
    chain: &Chain,
    height: Option<u64>,
    hash: Option<crate::hash::Hash>,
    commit: Option<String>,
) -> (r: Result<crate::hash::Hash, ApiError>)
    requires
        chain.wf(),
    ensures
        parse_inputs_post(*chain, height, hash, commit, r),
{
    let mut given: u32 = 0;
    if height.is_some() {
        given = given + 1;
    }
    if hash.is_some() {
        given = given + 1;
    }
    if commit.is_some() {
        given = given + 1;
    }
    if given != 1 {
        return Err(
            ApiError::Argument(
                "exactly one of height, hash or output commit must be given".to_owned(),
            ),
        );
    }
    if let Some(height) = height {
        return match chain.get_header_by_height(height) {
            Some(header) => Ok(header.hash),
            None => {
                let mut m = "Header for height ".to_owned();
                m.append(u64_to_string(height).as_str());
                m.append(" not found");
                Err(ApiError::NotFound(m))
            },
        };
    }
    if let Some(hash) = hash {
        return Ok(hash);
    }
    if let Some(commit) = commit {
        let v = match from_hex(commit.as_str()) {
            Some(v) => v,
            None => {
                let mut m = "Invalid commit ".to_owned();
                m.append(commit.as_str());
                return Err(ApiError::Argument(m));
            },
        };
        if v.len() != 33 {
            let mut m = "Output ".to_owned();
            m.append(commit.as_str());
            m.append(" not found");
            return Err(ApiError::NotFound(m));
        }
        return match chain.get_header_for_output(&v) {
            Some(header) => Ok(header.hash),
            None => {
                let mut m = "Output ".to_owned();
                m.append(commit.as_str());
                m.append(" not found");
                Err(ApiError::NotFound(m))
            },
        };
    }
    Err(ApiError::Argument("no query argument given".to_owned()))
}

/// The flags of a block query: whether the compact form was asked for,
/// and whether range proofs and Merkle positions are included.
#[derive(Debug, Clone, Copy, PartialEq, Eq, Structural)]
pub struct BlockQuery {
    /// Return the block in compact form.
    pub compact: bool,
    /// Include each output's range proof.
    pub include_proof: bool,
    /// Include each unspent output's MMR position.
    pub include_merkle_proof: bool,
}

/// The flags a request without query parameters gets.
pub open spec fn default_block_query() -> BlockQuery {
    BlockQuery { compact: false, include_proof: false, include_merkle_proof: true }
}

/// What the decoded key/value pairs of a query string are. Relied on
/// through `parse_query_pairs`; the result depends on the string alone.
pub uninterp spec fn query_pairs_of(q: Seq<char>) -> Seq<(Seq<char>, Seq<char>)>;

/// Relies on url::form_urlencoded::parse: splits a query string into
/// its percent-decoded key/value pairs, a pure function of the string.
#[verifier::external_body]
fn parse_query_pairs(q: &str) -> (r: Vec<(String, String)>)
    ensures
        r@.len() == query_pairs_of(q@).len(),
        forall|i: int|
            0 <= i < r@.len() ==> (#[trigger] r@[i]).0@ == query_pairs_of(q@)[i].0 && r@[i].1@
                == query_pairs_of(q@)[i].1,
{
    url::form_urlencoded::parse(q.as_bytes()).into_owned().collect()
}

/// The key/value views of a decoded parameter list.
pub open spec fn view_pairs(pairs: Seq<(String, String)>) -> Seq<(Seq<char>, Seq<char>)> {
    Seq::new(pairs.len(), |i: int| (pairs[i].0@, pairs[i].1@))
}

/// The flags the given parameter list folds to, left to right: `None`
/// on the first unknown parameter name.
pub open spec fn spec_apply_params(pairs: Seq<(Seq<char>, Seq<char>)>, acc: BlockQuery) -> Option<
    BlockQuery,
>
    decreases pairs.len(),
{
    if pairs.len() == 0 {
        Some(acc)
    } else if pairs[0].0 == "compact"@ {
        spec_apply_params(pairs.drop_first(), BlockQuery { compact: true, ..acc })
    } else if pairs[0].0 == "no_merkle_proof"@ {
        spec_apply_params(pairs.drop_first(), BlockQuery { include_merkle_proof: false, ..acc })
    } else if pairs[0].0 == "include_proof"@ {
        spec_apply_params(pairs.drop_first(), BlockQuery { include_proof: true, ..acc })
    } else {
        None
    }
}

/// Fold a parameter list into block-query flags; an unknown parameter
/// name is an argument error.
pub fn parse_block_query(pairs: &Vec<(String, String)>) -> (r: Result<BlockQuery, ApiError>)
    ensures
        ({
            let folded = spec_apply_params(view_pairs(pairs@), default_block_query());
            match folded {
                Some(f) => r is Ok && r->Ok_0 == f,
                None => r is Err && r->Err_0 is Argument,
            }
        }),
{
    let ghost gpairs: Seq<(Seq<char>, Seq<char>)> = view_pairs(pairs@);
    let mut acc = BlockQuery { compact: false, include_proof: false, include_merkle_proof: true };
    let mut i: usize = 0;
    proof {
        assert(gpairs.skip(0) =~= gpairs);
    }
    while i < pairs.len()
        invariant
            i <= pairs@.len(),
            gpairs.len() == pairs@.len(),
            forall|j: int|
                0 <= j < gpairs.len() ==> (#[trigger] gpairs[j]).0 == pairs@[j].0@ && gpairs[j].1
                    == pairs@[j].1@,
            spec_apply_params(gpairs, default_block_query()) == spec_apply_params(
                gpairs.skip(i as int),
                acc,
            ),
        decreases pairs@.len() - i,
    {
        proof {
            assert(gpairs.skip(i as int)[0] == gpairs[i as int]);
            assert(gpairs.skip(i as int).drop_first() =~= gpairs.skip(i as int + 1));
        }
        let param = &pairs[i].0;
        if str_eq(param.as_str(), "compact") {
            acc = BlockQuery { compact: true, ..acc };
        } else if str_eq(param.as_str(), "no_merkle_proof") {
            acc = BlockQuery { include_merkle_proof: false, ..acc };
        } else if str_eq(param.as_str(), "include_proof") {
            acc = BlockQuery { include_proof: true, ..acc };
        } else {
            proof {
                assert(gpairs.skip(i as int)[0].0 != "compact"@);
                assert(gpairs.skip(i as int)[0].0 != "no_merkle_proof"@);
                assert(gpairs.skip(i as int)[0].0 != "include_proof"@);
                assert(spec_apply_params(gpairs.skip(i as int), acc) is None);
                assert(gpairs == view_pairs(pairs@));
                assert(spec_apply_params(view_pairs(pairs@), default_block_query()) is None);
            }
            let mut m = "unsupported query parameter: ".to_owned();
            m.append(param.as_str());
            return Err(ApiError::Argument(m));
        }
        i = i + 1;
    }
    proof {
        assert(gpairs.skip(gpairs.len() as int) =~= Seq::<(Seq<char>, Seq<char>)>::empty());
    }
    Ok(acc)
}

/// A block query's answer: the full or the compact printable form.
#[derive(Debug)]
pub enum BlockResponse {
    /// The full block.
    Full(BlockPrintable),
    /// The compact block.
    Compact(CompactBlockPrintable),
}

/// What parsing a block-path element to a header hash returns: a
/// height resolves through the header index; anything else must be a
/// 64-hex hash, which stands for itself without a lookup.
pub open spec fn spec_parse_input_hash(c: Chain, s: Seq<char>) -> Option<Seq<u8>> {
    if is_u64_value(s) {
        if spec_height_of(s) < c.headers@.len() {
            Some(c.headers@[spec_height_of(s)].hash@)
        } else {
            None
        }
    } else if is_hash_string(s) {
        Some(spec_hash_from_vec(bytes_of_hex(s)))
    } else {
        None
    }
}

/// Gets block details given either a hash, a height or an output
/// commitment, with optional query flags for the compact form, for
/// range proofs and for Merkle positions.
pub struct BlockHandler {
    /// The chain snapshot the handler reads.
    pub chain: Chain,
}

impl BlockHandler {
    /// Look a stored block up by its header hash and print it.
    pub fn get_block(
        &self,
        h: &crate::hash::Hash,
        include_proof: bool,
        include_merkle_proof: bool,
    ) -> (r: Result<BlockPrintable, ApiError>)
        ensures
            match spec_find_block(self.chain.blocks@, h@) {
                Some(i) => r is Ok && matches_block_printable(
                    r->Ok_0,
                    self.chain.blocks@[i],
                    self.chain,
                    include_proof,
                    include_merkle_proof,
                ),
                None => r is Err && r->Err_0 is NotFound,
            },
    {
        match self.chain.get_block(h) {
            Some(block) => Ok(
                BlockPrintable::from_block(block, &self.chain, include_proof, include_merkle_proof),
            ),
            None => {
                let mut m = "Block for hash ".to_owned();
                m.append(h.to_hex().as_str());
                m.append(" not found");
                Err(ApiError::NotFound(m))
            },
        }
    }

    /// Look a stored block up by its header hash and print it in
    /// compact form.
    pub fn get_compact_block(&self, h: &crate::hash::Hash) -> (r: Result<
        CompactBlockPrintable,
        ApiError,
    >)
        ensures
            match spec_find_block(self.chain.blocks@, h@) {
                Some(i) => r is Ok && matches_compact_printable(
                    r->Ok_0,
                    self.chain.blocks@[i],
                    self.chain,
                ),
                None => r is Err && r->Err_0 is NotFound,
            },
    {
        match self.chain.get_block(h) {
            Some(block) => Ok(CompactBlockPrintable::from_compact_block(block, &self.chain)),
            None => {
                let mut m = "Block for hash ".to_owned();
                m.append(h.to_hex().as_str());
                m.append(" not found");
                Err(ApiError::NotFound(m))
            },
        }
    }

    /// Decode a path element as a height or a 64-hex hash; a height is
    /// resolved through the header index, a hash stands for itself.
    pub fn parse_input(&self, input: String) -> (r: Result<crate::hash::Hash, ApiError>)
        ensures
            match spec_parse_input_hash(self.chain, input@) {
                Some(hb) => r is Ok && r->Ok_0@ == hb,
                None => r is Err && (if !is_u64_value(input@) && !is_hash_string(input@) {
                    r->Err_0 is Argument
                } else {
                    r->Err_0 is NotFound
                }),
            },
    {
        match parse_u64(input.as_str()) {
            Some(height) => {
                return match self.chain.get_header_by_height(height) {
                    Some(header) => Ok(header.hash),
                    None => {
                        let mut m = "Header for height ".to_owned();
                        m.append(u64_to_string(height).as_str());
                        m.append(" not found");
                        Err(ApiError::NotFound(m))
                    },
                };
            },
            None => {},
        }
        match from_hex(input.as_str()) {
            Some(v) => {
                if v.len() == 32 {
                    Ok(crate::hash::Hash::from_vec(&v))
                } else {
                    let mut m = "Not a valid hash or height value ".to_owned();
                    m.append(input.as_str());
                    Err(ApiError::Argument(m))
                }
            },
            None => {
                let mut m = "Not a valid hash or height value ".to_owned();
                m.append(input.as_str());
                Err(ApiError::Argument(m))
            },
        }
    }

    /// Resolve exactly one of a height, a hash or an output commitment
    /// to the hash of the header it denotes; giving none or more than
    /// one of them is an argument error.
    pub fn parse_inputs(
        &self,
        height: Option<u64>,
        hash: Option<crate::hash::Hash>,
        commit: Option<String>,
    ) -> (r: Result<crate::hash::Hash, ApiError>)
        requires
            self.chain.wf(),
        ensures
            parse_inputs_post(self.chain, height, hash, commit, r),
    {
        resolve_inputs(&self.chain, height, hash, commit)
    }

    /// Serve one GET request: decode the path element, fold the query
    /// parameters into flags, and answer with the full or the compact
    /// printable block.
    pub fn handle_get(&self, input: String, query: Option<&str>) -> (r: Result<
        BlockResponse,
        ApiError,
    >)
        ensures
            ({
                let c = self.chain;
                let hb = spec_parse_input_hash(c, input@);
                let flags = match query {
                    Some(q) => spec_apply_params(query_pairs_of(q@), default_block_query()),
                    None => Some(default_block_query()),
                };
                &&& !is_u64_value(input@) && !is_hash_string(input@) ==> r is Err && r->Err_0
                    is Argument
                &&& is_u64_value(input@) && spec_height_of(input@) >= c.headers@.len() ==> r is Err
                    && r->Err_0 is NotFound
                &&& hb is None ==> r is Err
                &&& hb is Some && flags is None ==> r is Err && r->Err_0 is Argument
                &&& hb is Some && flags is Some && flags->Some_0.compact ==> (
                match spec_find_block(c.blocks@, hb->Some_0) {
                    Some(i) => r is Ok && r->Ok_0 is Compact && matches_compact_printable(
                        r->Ok_0->Compact_0,
                        c.blocks@[i],
                        c,
                    ),
                    None => r is Err && r->Err_0 is NotFound,
                })
                &&& hb is Some && flags is Some && !flags->Some_0.compact ==> (
                match spec_find_block(c.blocks@, hb->Some_0) {
                    Some(i) => r is Ok && r->Ok_0 is Full && matches_block_printable(
                        r->Ok_0->Full_0,
                        c.blocks@[i],
                        c,
                        flags->Some_0.include_proof,
                        flags->Some_0.include_merkle_proof,
                    ),
                    None => r is Err && r->Err_0 is NotFound,
                })
            }),
    {
        let h = match self.parse_input(input) {
            Ok(h) => h,
            Err(e) => {
                return Err(e);
            },
        };
        let flags = match query {
            Some(q) => {
                let pairs = parse_query_pairs(q);
                proof {
                    assert(view_pairs(pairs@) =~= query_pairs_of(q@));
                }
                match parse_block_query(&pairs) {
                    Ok(f) => f,
                    Err(e) => {
                        return Err(e);
                    },
                }
            },
            None => BlockQuery { compact: false, include_proof: false, include_merkle_proof: true },
        };
        if flags.compact {
            match self.get_compact_block(&h) {
                Ok(b) => Ok(BlockResponse::Compact(b)),
                Err(e) => Err(e),
            }
        } else {
            match self.get_block(&h, flags.include_proof, flags.include_merkle_proof) {
                Ok(b) => Ok(BlockResponse::Full(b)),
                Err(e) => Err(e),
            }
        }
    }
}

} // verus!
