use vstd::prelude::*;

verus! {

/// The SQL keywords the driver builds statements from. The casing is an
/// immutable configuration value chosen once, at construction, never
/// mutable global state.
#[derive(Clone, Debug, PartialEq, Eq)]
pub struct SqlTemplate {
    pub where_: &'static str,
    pub and: &'static str,
    pub or: &'static str,
    pub in_: &'static str,
    pub having: &'static str,
    pub order_by: &'static str,
    pub group_by: &'static str,
    pub asc: &'static str,
    pub desc: &'static str,
    pub between: &'static str,
    pub not: &'static str,
    pub like: &'static str,
    pub is: &'static str,
    pub null: &'static str,
    pub insert_into: &'static str,
    pub values: &'static str,
    pub limit: &'static str,
    pub set: &'static str,
    pub update: &'static str,
    pub select: &'static str,
    pub delete_from: &'static str,
    pub from: &'static str,
    pub as_: &'static str,
    pub offset: &'static str,
    /// mssql
    pub rows_fetch_next: &'static str,
    /// mssql
    pub rows_only: &'static str,
}

/// The keyword table with upper-case keywords.
pub open spec fn spec_upper_template() -> SqlTemplate {
    SqlTemplate {
        where_: " WHERE ",
        and: " AND ",
        or: " OR ",
        in_: " IN ",
        having: " HAVING ",
        order_by: " ORDER BY ",
        group_by: " GROUP BY ",
        asc: " ASC ",
        desc: " DESC ",
        between: " BETWEEN ",
        not: " NOT ",
        like: " LIKE ",
        is: " IS ",
        null: " NULL ",
        insert_into: "INSERT INTO ",
        values: " VALUES ",
        limit: " LIMIT ",
        set: " SET ",
        update: "UPDATE ",
        select: "SELECT ",
        delete_from: "DELETE FROM ",
        from: " FROM ",
        as_: " AS ",
        offset: " OFFSET ",
        rows_fetch_next: " ROWS FETCH NEXT ",
        rows_only: " ROWS ONLY ",
    }
}

/// The keyword table with lower-case keywords (`NULL` stays upper case).
pub open spec fn spec_lower_template() -> SqlTemplate {
    SqlTemplate {
        where_: " where ",
        and: " and ",
        or: " or ",
        in_: " in ",
        having: " having ",
        order_by: " order by ",
        group_by: " group by ",
        asc: " asc ",
        desc: " desc ",
        between: " between ",
        not: " not ",
        like: " like ",
        is: " is ",
        null: " NULL ",
        insert_into: "insert into ",
        values: " values ",
        limit: " limit ",
        set: " set ",
        update: "update ",
        select: "select ",
        delete_from: "delete from ",
        from: " from ",
        as_: " as ",
        offset: " offset ",
        rows_fetch_next: " rows fetch next ",
        rows_only: " rows only ",
    }
}

impl SqlTemplate {
    /// Build the keyword table for the chosen casing.
    pub fn new(upper_case: bool) -> (r: Self)
        ensures
            r == if upper_case {
                spec_upper_template()
            } else {
                spec_lower_template()
            },
    {
        if upper_case {
            Self {
                where_: " WHERE ",
                and: " AND ",
                or: " OR ",
                in_: " IN ",
                having: " HAVING ",
                order_by: " ORDER BY ",
                group_by: " GROUP BY ",
                asc: " ASC ",
                desc: " DESC ",
                between: " BETWEEN ",
                not: " NOT ",
                like: " LIKE ",
                is: " IS ",
                null: " NULL ",
                insert_into: "INSERT INTO ",
                values: " VALUES ",
                limit: " LIMIT ",
                set: " SET ",
                update: "UPDATE ",
                select: "SELECT ",
                delete_from: "DELETE FROM ",
                from: " FROM ",
                as_: " AS ",
                offset: " OFFSET ",
                rows_fetch_next: " ROWS FETCH NEXT ",
                rows_only: " ROWS ONLY ",
            }
        } else {
            Self {
                where_: " where ",
                and: " and ",
                or: " or ",
                in_: " in ",
                having: " having ",
                order_by: " order by ",
                group_by: " group by ",
                asc: " asc ",
                desc: " desc ",
                between: " between ",
                not: " not ",
                like: " like ",
                is: " is ",
                null: " NULL ",
                insert_into: "insert into ",
                values: " values ",
                limit: " limit ",
                set: " set ",
                update: "update ",
                select: "select ",
                delete_from: "delete from ",
                from: " from ",
                as_: " as ",
                offset: " offset ",
                rows_fetch_next: " rows fetch next ",
                rows_only: " rows only ",
            }
        }
    }
}

impl Default for SqlTemplate {
    /// Lower-case keywords are the default casing.
    fn default() -> (r: Self)
        ensures
            r == spec_lower_template(),
    {
        SqlTemplate::new(false)
    }
}

} // verus!
