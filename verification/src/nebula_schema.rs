//! Schema vocabulary: property definitions for tags and edges, and the
//! ready-made insert queries, each rendered to query text under an exact
//! character-level contract.

use vstd::prelude::*;

use crate::numfmt;
use crate::text;

verus! {

/// Frequently-used data types of graph properties.
pub enum DataType {
    Int,
    Bool,
    String,
    FixedString,
    Double,
    Int32,
    Int16,
    Int8,
    Float,
    Date,
    Time,
}

/// The query-text keyword for a data type.
pub open spec fn spec_data_type_text(dt: DataType) -> Seq<char> {
    match dt {
        DataType::Int => "int"@,
        DataType::Bool => "bool"@,
        DataType::String => "string"@,
        DataType::FixedString => "fixed_string"@,
        DataType::Double => "double"@,
        DataType::Int32 => "int32"@,
        DataType::Int16 => "int16"@,
        DataType::Int8 => "int8"@,
        DataType::Float => "float"@,
        DataType::Date => "date"@,
        DataType::Time => "time"@,
    }
}

impl DataType {
    /// The keyword as it appears in query text.
    pub fn to_string(&self) -> (r: String)
        ensures
            r@ == spec_data_type_text(*self),
    {
        match self {
            DataType::Int => "int".to_owned(),
            DataType::Bool => "bool".to_owned(),
            DataType::String => "string".to_owned(),
            DataType::FixedString => "fixed_string".to_owned(),
            DataType::Double => "double".to_owned(),
            DataType::Int32 => "int32".to_owned(),
            DataType::Int16 => "int16".to_owned(),
            DataType::Int8 => "int8".to_owned(),
            DataType::Float => "float".to_owned(),
            DataType::Date => "date".to_owned(),
            DataType::Time => "time".to_owned(),
        }
    }
}

/// Whether a schema object is a tag or an edge.
#[derive(Clone, Copy)]
pub enum ColType {
    Tag,
    Edge,
}

/// The query-text keyword for a column type.
pub open spec fn spec_col_type_text(ct: ColType) -> Seq<char> {
    match ct {
        ColType::Tag => "tag"@,
        ColType::Edge => "edge"@,
    }
}

impl ColType {
    /// The keyword as it appears in query text.
    pub fn to_string(&self) -> (r: String)
        ensures
            r@ == spec_col_type_text(*self),
    {
        match self {
            ColType::Tag => "tag".to_owned(),
            ColType::Edge => "edge".to_owned(),
        }
    }
}

/// One property of a tag or an edge: name, type, nullability, and the
/// optional default and comment.
pub struct Tag {
    pub property_name: String,
    pub data_type: DataType,
    pub allow_null: bool,
    pub defaults: String,
    pub comment: String,
}

/// The query-text rendering of one property definition.
pub open spec fn spec_tag_text(t: Tag) -> Seq<char> {
    "`"@ + t.property_name@ + "` "@ + spec_data_type_text(t.data_type) + " "@ + (if t.allow_null {
        "NULL "@
    } else {
        "NOT NULL "@
    }) + (if t.defaults@.len() != 0 {
        "DEFAULT \""@ + t.defaults@ + "\" "@
    } else {
        Seq::<char>::empty()
    }) + (if t.comment@.len() != 0 {
        "COMMENT \""@ + t.comment@ + "\" "@
    } else {
        Seq::<char>::empty()
    })
}

impl Tag {
    /// A property definition from its parts.
    pub fn new(
        property_name: &str,
        data_type: DataType,
        allow_null: bool,
        defaults: &str,
        comment: &str,
    ) -> (r: Self)
        ensures
            r.property_name@ == property_name@,
            r.data_type == data_type,
            r.allow_null == allow_null,
            r.defaults@ == defaults@,
            r.comment@ == comment@,
    {
        Tag {
            property_name: property_name.to_owned(),
            data_type,
            allow_null,
            defaults: defaults.to_owned(),
            comment: comment.to_owned(),
        }
    }

    /// The property definition as it appears inside a create query.
    pub fn to_string(&self) -> (r: String)
        ensures
            r@ == spec_tag_text(*self),
    {
        let mut line = "`".to_owned();
        line.append(self.property_name.as_str());
        line.append("` ");
        line.append(self.data_type.to_string().as_str());
        line.append(" ");
        if self.allow_null {
            line.append("NULL ");
        } else {
            line.append("NOT NULL ");
        }
        if !self.defaults.as_str().is_empty() {
            line.append("DEFAULT \"");
            line.append(self.defaults.as_str());
            line.append("\" ");
        }
        if !self.comment.as_str().is_empty() {
            line.append("COMMENT \"");
            line.append(self.comment.as_str());
            line.append("\" ");
        }
        line
    }
}

/// A ready-made insert-vertex query.
pub struct InsertTagQuery {
    pub space_name: String,
    pub tag_name: String,
    pub kv: Vec<(String, String)>,
    pub vid: String,
}

/// The query text an [`InsertTagQuery`] renders to.
pub open spec fn spec_insert_tag_query_text(q: InsertTagQuery) -> Seq<char> {
    "use "@ + q.space_name@ + "; "@ + "INSERT VERTEX "@ + q.tag_name@ + " "@ + text::kv_keys(
        q.kv@,
    ) + " VALUES \""@ + q.vid@ + "\":"@ + text::kv_values(q.kv@) + ";"@
}

impl InsertTagQuery {
    /// An insert-vertex query from its parts.  The properties are a list of
    /// `(key, value)` pairs, rendered in list order.
    pub fn new(space_name: String, tag_name: String, kv: Vec<(String, String)>, vid: String) -> (r:
        Self)
        ensures
            r.space_name@ == space_name@,
            r.tag_name@ == tag_name@,
            r.kv@ == kv@,
            r.vid@ == vid@,
    {
        InsertTagQuery { space_name, tag_name, kv, vid }
    }

    /// The full query text.
    pub fn to_string(&self) -> (r: String)
        ensures
            r@ == spec_insert_tag_query_text(*self),
    {
        let mut query = "use ".to_owned();
        query.append(self.space_name.as_str());
        query.append("; ");
        query.append("INSERT VERTEX ");
        query.append(self.tag_name.as_str());
        query.append(" ");
        let (keys, values) = text::kv_lists(&self.kv);
        query.append(keys.as_str());
        query.append(" VALUES \"");
        query.append(self.vid.as_str());
        query.append("\":");
        query.append(values.as_str());
        query.append(";");
        query
    }
}

/// A ready-made insert-edge query with an explicit rank.
pub struct InsertEdgeQueryWithRank {
    pub space_name: String,
    pub edge_name: String,
    pub kv: Vec<(String, String)>,
    pub from_vertex: String,
    pub to_vertex: String,
    pub rank: i64,
}

/// The query text an [`InsertEdgeQueryWithRank`] renders to.
pub open spec fn spec_insert_edge_query_with_rank_text(q: InsertEdgeQueryWithRank) -> Seq<char> {
    "use "@ + q.space_name@ + "; "@ + "INSERT EDGE IF NOT EXISTS "@ + q.edge_name@ + " "@
        + text::kv_keys(q.kv@) + " VALUES \""@ + q.from_vertex@ + "\" -> \""@ + q.to_vertex@ + "\"@"@
        + numfmt::spec_decimal_int(q.rank as int) + ":"@ + text::kv_values(q.kv@) + ";"@
}

impl InsertEdgeQueryWithRank {
    /// An insert-edge query from its parts.  The properties are a list of
    /// `(key, value)` pairs, rendered in list order.
    pub fn new(
        space_name: String,
        edge_name: String,
        kv: Vec<(String, String)>,
        from_vertex: String,
        to_vertex: String,
        rank: i64,
    ) -> (r: Self)
        ensures
            r.space_name@ == space_name@,
            r.edge_name@ == edge_name@,
            r.kv@ == kv@,
            r.from_vertex@ == from_vertex@,
            r.to_vertex@ == to_vertex@,
            r.rank == rank,
    {
        InsertEdgeQueryWithRank { space_name, edge_name, kv, from_vertex, to_vertex, rank }
    }

    /// The full query text.
    pub fn to_string(&self) -> (r: String)
        ensures
            r@ == spec_insert_edge_query_with_rank_text(*self),
    {
        let mut query = "use ".to_owned();
        query.append(self.space_name.as_str());
        query.append("; ");
        query.append("INSERT EDGE IF NOT EXISTS ");
        query.append(self.edge_name.as_str());
        query.append(" ");
        let (keys, values) = text::kv_lists(&self.kv);
        query.append(keys.as_str());
        query.append(" VALUES \"");
        query.append(self.from_vertex.as_str());
        query.append("\" -> \"");
        query.append(self.to_vertex.as_str());
        query.append("\"@");
        query.append(numfmt::i64_to_decimal(self.rank).as_str());
        query.append(":");
        query.append(values.as_str());
        query.append(";");
        query
    }
}

} // verus!
