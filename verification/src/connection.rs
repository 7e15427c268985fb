//! The connection handle and the query text it sends.
//!
//! A [`Connection`] here is the bookkeeping identity of one network-level
//! handle: which endpoint it was created against, under which number the
//! pool issued it.  Opening the transport, and carrying a request over it,
//! is network I/O and belongs to the unverified driver; every piece of
//! query text that would travel over the wire is built and specified here.

use vstd::prelude::*;

use crate::graph_types::ExecutionResponse;
use crate::nebula_schema::ColType;
use crate::nebula_schema::Tag;
use crate::nebula_schema::spec_col_type_text;
use crate::nebula_schema::spec_tag_text;
use crate::numfmt;
use crate::text;

verus! {

/// One connection handle: the pool-issued identity and the endpoint
/// address it was opened against.  Exactly one owner holds it at a time —
/// the pool's idle list, or one session.
#[derive(Debug)]
pub struct Connection {
    /// Number under which the pool issued this handle; the driver keys the
    /// real transport by it.
    pub id: u64,
    /// The `host:port` endpoint the handle was opened against.
    pub address: String,
}

/// The text of a `use`-space statement.
pub open spec fn spec_use_space_text(space_name: Seq<char>) -> Seq<char> {
    "use "@ + space_name + ";"@
}

/// The text of a create-space query.
pub open spec fn spec_create_space_query_text(
    space_name: Seq<char>,
    partition_num: u8,
    replica_factor: u8,
    is_fixed_string: bool,
    fixed_string_len: u8,
    comment: Seq<char>,
) -> Seq<char> {
    "CREATE SPACE IF NOT EXISTS `"@ + space_name + "` (partition_num = "@ + numfmt::spec_decimal_nat(
        partition_num as nat,
    ) + ", replica_factor = "@ + numfmt::spec_decimal_nat(replica_factor as nat) + ", vid_type = "@
        + (if is_fixed_string {
        "FIXED_STRING("@ + numfmt::spec_decimal_nat(fixed_string_len as nat) + "))"@
    } else {
        "INT64)"@
    }) + (if comment.len() != 0 {
        " COMMENT = \""@ + comment + "\""@
    } else {
        Seq::<char>::empty()
    }) + ";"@
}

/// The comma-separated property definitions of a create-tag/edge query.
pub open spec fn spec_tag_list_text(tags: Seq<Tag>) -> Seq<char>
    decreases tags.len(),
{
    if tags.len() == 0 {
        Seq::<char>::empty()
    } else if tags.len() == 1 {
        spec_tag_text(tags[0])
    } else {
        spec_tag_list_text(tags.drop_last()) + seq![','] + spec_tag_text(tags.last())
    }
}

/// The text of a create-tag or create-edge query.
pub open spec fn spec_create_tag_or_edge_query_text(
    space_name: Seq<char>,
    col_type: ColType,
    tag_name: Seq<char>,
    comment: Seq<char>,
    tags: Seq<Tag>,
) -> Seq<char> {
    "use "@ + space_name + "; CREATE "@ + spec_col_type_text(col_type) + " IF NOT EXISTS `"@
        + tag_name + "` ("@ + spec_tag_list_text(tags) + ")"@ + (if comment.len() != 0 {
        " COMMENT = \""@ + comment + "\""@
    } else {
        Seq::<char>::empty()
    }) + ";"@
}

/// The text of an insert-vertex query.
pub open spec fn spec_insert_tag_query_text(
    space_name: Seq<char>,
    tag_name: Seq<char>,
    kv: Seq<(String, String)>,
    vid: Seq<char>,
) -> Seq<char> {
    "use "@ + space_name + "; "@ + "INSERT VERTEX IF NOT EXISTS "@ + tag_name + " "@
        + text::kv_keys(kv) + " VALUES \""@ + vid + "\":"@ + text::kv_values(kv) + ";"@
}

/// The text of an insert-edge query without a rank.
pub open spec fn spec_insert_edge_query_text(
    space_name: Seq<char>,
    edge_name: Seq<char>,
    kv: Seq<(String, String)>,
    from_vertex: Seq<char>,
    to_vertex: Seq<char>,
) -> Seq<char> {
    "use "@ + space_name + "; "@ + "INSERT EDGE IF NOT EXISTS "@ + edge_name + " "@ + text::kv_keys(
        kv,
    ) + " VALUES \""@ + from_vertex + "\" -> \""@ + to_vertex + "\":"@ + text::kv_values(kv) + ";"@
}

/// The text of an insert-edge query with an explicit rank.
pub open spec fn spec_insert_edge_with_rank_query_text(
    space_name: Seq<char>,
    edge_name: Seq<char>,
    kv: Seq<(String, String)>,
    from_vertex: Seq<char>,
    to_vertex: Seq<char>,
    rank: i64,
) -> Seq<char> {
    "use "@ + space_name + "; "@ + "INSERT EDGE IF NOT EXISTS "@ + edge_name + " "@ + text::kv_keys(
        kv,
    ) + " VALUES \""@ + from_vertex + "\" -> \""@ + to_vertex + "\"@"@ + numfmt::spec_decimal_int(
        rank as int,
    ) + ":"@ + text::kv_values(kv) + ";"@
}

/// One indexed property inside a create-index query: the back-quoted name,
/// and for a positive length bound its parenthesised decimal.
pub open spec fn spec_index_property_text(k: Seq<char>, v: u8) -> Seq<char> {
    "`"@ + k + "`"@ + (if v == 0 {
        Seq::<char>::empty()
    } else {
        "("@ + numfmt::spec_decimal_nat(v as nat) + ")"@
    })
}

/// The comma-separated indexed properties of a create-index query.
pub open spec fn spec_index_properties_text(ps: Seq<(String, u8)>) -> Seq<char>
    decreases ps.len(),
{
    if ps.len() == 0 {
        Seq::<char>::empty()
    } else if ps.len() == 1 {
        spec_index_property_text(ps[0].0@, ps[0].1)
    } else {
        spec_index_properties_text(ps.drop_last()) + seq![','] + spec_index_property_text(
            ps.last().0@,
            ps.last().1,
        )
    }
}

/// The text of a create-index query.
pub open spec fn spec_create_index_query_text(
    space_name: Seq<char>,
    index_type: ColType,
    tag_or_edge_name: Seq<char>,
    index_name: Seq<char>,
    comment: Seq<char>,
    indexed_properties: Seq<(String, u8)>,
) -> Seq<char> {
    "use "@ + space_name + "; "@ + "CREATE "@ + spec_col_type_text(index_type) + " INDEX `"@
        + index_name + "` on `"@ + tag_or_edge_name + "`("@ + spec_index_properties_text(
        indexed_properties,
    ) + ") "@ + (if comment.len() != 0 {
        "COMMENT \""@ + comment + "\""@
    } else {
        Seq::<char>::empty()
    }) + ";"@
}

/// The text of the listing query a tag/edge lookup sends: enter the space,
/// then show the tags or the edges.
pub open spec fn spec_find_tag_or_edge_query_text(
    space_name: Seq<char>,
    col_type: ColType,
) -> Seq<char> {
    spec_use_space_text(space_name) + (match col_type {
        ColType::Edge => "show edges;"@,
        ColType::Tag => "show tags;"@,
    })
}

/// Whether a listing response names `name`: somewhere in its string rows.
pub open spec fn spec_response_lists_name(resp: ExecutionResponse, name: Seq<char>) -> bool {
    match resp.string_values {
        Some(rows) => exists|i: int| 0 <= i < rows@.len() && rows@[i]@ == name,
        None => false,
    }
}

impl Connection {
    /// The `host:port` address text for one endpoint.
    pub fn format_address(host: &str, port: i32) -> (r: String)
        ensures
            r@ == host@ + ":"@ + numfmt::spec_decimal_int(port as int),
    {
        let mut r = host.to_owned();
        r.append(":");
        r.append(numfmt::i64_to_decimal(port as i64).as_str());
        r
    }

    /// The text of a `use`-space statement.
    pub fn use_space(space_name: &str) -> (r: String)
        ensures
            r@ == spec_use_space_text(space_name@),
    {
        let mut line = "use ".to_owned();
        line.append(space_name);
        line.append(";");
        line
    }

    /// The text of a create-space query.
    pub fn get_create_space_query(
        &self,
        space_name: &str,
        partition_num: u8,
        replica_factor: u8,
        is_fixed_string: bool,
        fixed_string_len: u8,
        comment: &str,
    ) -> (r: String)
        ensures
            r@ == spec_create_space_query_text(
                space_name@,
                partition_num,
                replica_factor,
                is_fixed_string,
                fixed_string_len,
                comment@,
            ),
    {
        let mut query = "CREATE SPACE IF NOT EXISTS `".to_owned();
        query.append(space_name);
        query.append("` (partition_num = ");
        query.append(numfmt::u8_to_decimal(partition_num).as_str());
        query.append(", replica_factor = ");
        query.append(numfmt::u8_to_decimal(replica_factor).as_str());
        query.append(", vid_type = ");
        if is_fixed_string {
            query.append("FIXED_STRING(");
            query.append(numfmt::u8_to_decimal(fixed_string_len).as_str());
            query.append("))");
        } else {
            query.append("INT64)");
        }
        if !comment.is_empty() {
            query.append(" COMMENT = \"");
            query.append(comment);
            query.append("\"");
        }
        query.append(";");
        query
    }

    /// The text of a create-tag or create-edge query.
    pub fn get_create_tag_or_edge(
        &self,
        space_name: &str,
        col_type: ColType,
        tag_name: &str,
        comment: &str,
        tags: Vec<Tag>,
    ) -> (r: String)
        ensures
            r@ == spec_create_tag_or_edge_query_text(
                space_name@,
                col_type,
                tag_name@,
                comment@,
                tags@,
            ),
    {
        let mut query = "use ".to_owned();
        query.append(space_name);
        query.append("; CREATE ");
        query.append(col_type.to_string().as_str());
        query.append(" IF NOT EXISTS `");
        query.append(tag_name);
        query.append("` (");
        proof {
            reveal_strlit(",");
            assert(","@ =~= seq![',']);
        }
        let ghost prefix = query@;
        let mut i: usize = 0;
        while i < tags.len()
            invariant
                i <= tags.len(),
                query@ == prefix + spec_tag_list_text(tags@.subrange(0, i as int)) + (if 0 < i
                    < tags@.len() {
                    seq![',']
                } else {
                    Seq::<char>::empty()
                }),
                ","@ == seq![','],
            decreases tags.len() - i,
        {
            proof {
                assert(tags@.subrange(0, i + 1).drop_last() =~= tags@.subrange(0, i as int));
                assert(tags@.subrange(0, i + 1).last() == tags@[i as int]);
            }
            query.append(tags[i].to_string().as_str());
            proof {
                assert(query@ =~= prefix + spec_tag_list_text(tags@.subrange(0, i + 1)));
            }
            if i != tags.len() - 1 {
                query.append(",");
                proof {
                    assert(query@ =~= prefix + spec_tag_list_text(tags@.subrange(0, i + 1))
                        + seq![',']);
                }
            }
            i = i + 1;
        }
        proof {
            assert(tags@.subrange(0, tags@.len() as int) =~= tags@);
        }
        query.append(")");
        if !comment.is_empty() {
            query.append(" COMMENT = \"");
            query.append(comment);
            query.append("\"");
        }
        query.append(";");
        query
    }
}

/// The text of the insert-vertex query an insert-tag call sends.
pub fn insert_tag_query_text(
    space_name: &str,
    tag_name: &str,
    kv: &Vec<(String, String)>,
    vid: &str,
) -> (r: String)
    ensures
        r@ == spec_insert_tag_query_text(space_name@, tag_name@, kv@, vid@),
{
    let mut query = "use ".to_owned();
    query.append(space_name);
    query.append("; ");
    query.append("INSERT VERTEX IF NOT EXISTS ");
    query.append(tag_name);
    query.append(" ");
    let (keys, values) = text::kv_lists(kv);
    query.append(keys.as_str());
    query.append(" VALUES \"");
    query.append(vid);
    query.append("\":");
    query.append(values.as_str());
    query.append(";");
    query
}

/// The text of the insert-edge query an insert-edge call sends.
pub fn insert_edge_query_text(
    space_name: &str,
    edge_name: &str,
    kv: &Vec<(String, String)>,
    from_vertex: &str,
    to_vertex: &str,
) -> (r: String)
    ensures
        r@ == spec_insert_edge_query_text(space_name@, edge_name@, kv@, from_vertex@, to_vertex@),
{
    let mut query = "use ".to_owned();
    query.append(space_name);
    query.append("; ");
    query.append("INSERT EDGE IF NOT EXISTS ");
    query.append(edge_name);
    query.append(" ");
    let (keys, values) = text::kv_lists(kv);
    query.append(keys.as_str());
    query.append(" VALUES \"");
    query.append(from_vertex);
    query.append("\" -> \"");
    query.append(to_vertex);
    query.append("\":");
    query.append(values.as_str());
    query.append(";");
    query
}

/// The text of the insert-edge query with an explicit rank.
pub fn insert_edge_with_rank_query_text(
    space_name: &str,
    edge_name: &str,
    kv: &Vec<(String, String)>,
    from_vertex: &str,
    to_vertex: &str,
    rank: i64,
) -> (r: String)
    ensures
        r@ == spec_insert_edge_with_rank_query_text(
            space_name@,
            edge_name@,
            kv@,
            from_vertex@,
            to_vertex@,
            rank,
        ),
{
    let mut query = "use ".to_owned();
    query.append(space_name);
    query.append("; ");
    query.append("INSERT EDGE IF NOT EXISTS ");
    query.append(edge_name);
    query.append(" ");
    let (keys, values) = text::kv_lists(kv);
    query.append(keys.as_str());
    query.append(" VALUES \"");
    query.append(from_vertex);
    query.append("\" -> \"");
    query.append(to_vertex);
    query.append("\"@");
    query.append(numfmt::i64_to_decimal(rank).as_str());
    query.append(":");
    query.append(values.as_str());
    query.append(";");
    query
}

/// The text of a create-index query.
pub fn create_index_query_text(
    space_name: &str,
    index_type: ColType,
    tag_or_edge_name: &str,
    index_name: &str,
    comment: &str,
    indexed_properties: &Vec<(String, u8)>,
) -> (r: String)
    ensures
        r@ == spec_create_index_query_text(
            space_name@,
            index_type,
            tag_or_edge_name@,
            index_name@,
            comment@,
            indexed_properties@,
        ),
{
    let mut query = "use ".to_owned();
    query.append(space_name);
    query.append("; ");
    query.append("CREATE ");
    query.append(index_type.to_string().as_str());
    query.append(" INDEX `");
    query.append(index_name);
    query.append("` on `");
    query.append(tag_or_edge_name);
    query.append("`(");

    let mut properties = "".to_owned();
    proof {
        reveal_strlit("");
        reveal_strlit(",");
        reveal_strlit("`");
        assert(""@ =~= Seq::<char>::empty());
        assert(","@ =~= seq![',']);
    }
    let mut i: usize = 0;
    while i < indexed_properties.len()
        invariant
            i <= indexed_properties.len(),
            properties@ == spec_index_properties_text(indexed_properties@.subrange(0, i as int)),
            i == 0 <==> properties@.len() == 0,
            ","@ == seq![','],
            "`"@.len() == 1,
        decreases indexed_properties.len() - i,
    {
        proof {
            assert(indexed_properties@.subrange(0, i + 1).drop_last() =~= indexed_properties@
                .subrange(0, i as int));
            assert(indexed_properties@.subrange(0, i + 1).last() == indexed_properties@[i as int]);
        }
        if properties.unicode_len() != 0 {
            properties.append(",");
        }
        properties.append("`");
        properties.append(indexed_properties[i].0.as_str());
        properties.append("`");
        let bound = indexed_properties[i].1;
        if bound != 0 {
            properties.append("(");
            properties.append(numfmt::u8_to_decimal(bound).as_str());
            properties.append(")");
        }
        proof {
            assert(properties@ =~= spec_index_properties_text(
                indexed_properties@.subrange(0, i + 1),
            ));
        }
        i = i + 1;
    }
    proof {
        assert(indexed_properties@.subrange(0, indexed_properties@.len() as int)
            =~= indexed_properties@);
    }
    query.append(properties.as_str());
    query.append(") ");
    if !comment.is_empty() {
        query.append("COMMENT \"");
        query.append(comment);
        query.append("\"");
    }
    query.append(";");
    query
}

/// The text of the listing query a tag/edge lookup sends.
pub fn find_tag_or_edge_query_text(space_name: &str, col_type: ColType) -> (r: String)
    ensures
        r@ == spec_find_tag_or_edge_query_text(space_name@, col_type),
{
    let mut query = Connection::use_space(space_name);
    match col_type {
        ColType::Edge => query.append("show edges;"),
        ColType::Tag => query.append("show tags;"),
    }
    query
}

/// Whether a listing response names `name`.  This is the decision a
/// tag/edge lookup takes once the listing query has come back.
pub fn response_lists_name(resp: &ExecutionResponse, name: &str) -> (r: bool)
    ensures
        r == spec_response_lists_name(*resp, name@),
{
    match resp.string_values.as_ref() {
        Some(rows) => {
            let mut i: usize = 0;
            while i < rows.len()
                invariant
                    i <= rows.len(),
                    resp.string_values is Some,
                    resp.string_values->0@ == rows@,
                    forall|j: int| 0 <= j < i ==> rows@[j]@ != name@,
                decreases rows.len() - i,
            {
                if text::str_eq(rows[i].as_str(), name) {
                    proof {
                        assert(spec_response_lists_name(*resp, name@)) by {
                            assert(resp.string_values is Some);
                            assert(resp.string_values->0@ == rows@);
                            assert(0 <= i < rows@.len() && rows@[i as int]@ == name@);
                        }
                    }
                    return true;
                }
                i = i + 1;
            }
            false
        },
        None => false,
    }
}

} // verus!
