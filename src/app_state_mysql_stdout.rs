//! The backend that writes SQL text for an offline bulk load, every value inline.
//! Its output is meant for a trusted pipeline only.

use vstd::prelude::*;
use crate::database_table::{DatabaseTable, join, join_strings, views, create_lines};
use crate::db_operation_cache::{DbOperationCacheValue, escaped, insert_sql_inline, render_insert_inline, row_models};
use crate::text::cat;

verus! {

/// The statement that creates the `texts` table.
pub const MYSQL_CREATE_TEXTS_TABLE: &'static str = "CREATE TABLE IF NOT EXISTS `texts` (\n    `id` INT(11) NOT NULL AUTO_INCREMENT,\n    `value` VARCHAR(255) CHARACTER SET utf8mb4 COLLATE utf8mb4_bin NOT NULL,\n    PRIMARY KEY (`id`),\n    UNIQUE KEY `value` (`value`)\n) ENGINE=InnoDB";

/// The statement that creates the `table_list` table.
pub const MYSQL_CREATE_TABLE_LIST_TABLE: &'static str = "CREATE TABLE IF NOT EXISTS `table_list` (\n    `id` INT(11) NOT NULL AUTO_INCREMENT,\n    `name` VARCHAR(255) NOT NULL,\n    `json` MEDIUMTEXT NOT NULL,\n    PRIMARY KEY (`id`)\n) ENGINE=InnoDB";

/// Strings as a list of quoted, escaped rows: `("a"),("b")`.
pub open spec fn group_escaped(vs: Seq<Seq<char>>) -> Seq<char> {
    join(vs.map_values(|s: Seq<char>| "(\""@ + escaped(s) + "\")"@), ","@)
}

#[derive(Debug)]
pub struct AppStateStdoutMySQL {}

impl AppStateStdoutMySQL {
    pub fn new() -> (r: Self) {
        AppStateStdoutMySQL {}
    }

    /// Escapes `s` for a double-quoted SQL literal: `\` and `"` get a backslash.
    pub fn sql_escape(s: &str) -> (r: String)
        ensures
            r@ == escaped(s@),
    {
        crate::db_operation_cache::sql_escape(s)
    }

    /// Strings as a list of quoted, escaped rows: `("a"),("b")`.
    pub fn sql_group_escape(&self, vs: &Vec<String>) -> (r: String)
        ensures
            r@ == group_escaped(views(vs@)),
    {
        let ghost target = views(vs@).map_values(|s: Seq<char>| "(\""@ + escaped(s) + "\")"@);
        let mut parts: Vec<String> = Vec::new();
        let mut i: usize = 0;
        while i < vs.len()
            invariant
                i <= vs@.len(),
                target == views(vs@).map_values(|s: Seq<char>| "(\""@ + escaped(s) + "\")"@),
                views(parts@) == target.subrange(0, i as int),
            decreases vs@.len() - i,
        {
            let mut x = cat("(\"", Self::sql_escape(vs[i].as_str()).as_str());
            x.append("\")");
            let ghost before = views(parts@);
            parts.push(x);
            assert(views(parts@) =~= before.push(target[i as int]));
            i = i + 1;
            assert(views(parts@) =~= target.subrange(0, i as int));
        }
        assert(target.subrange(0, i as int) =~= target);
        join_strings(&parts, ",")
    }

    /// The statement that stores the strings `text_chunk` in the `texts` table.
    pub fn prepare_text(&self, text_chunk: &Vec<String>) -> (r: String)
        ensures
            r@ == "INSERT IGNORE INTO `texts` (`value`) VALUES "@ + group_escaped(views(text_chunk@)),
    {
        cat("INSERT IGNORE INTO `texts` (`value`) VALUES ", self.sql_group_escape(text_chunk).as_str())
    }

    /// The insert of the rows `value_chunk` after the statement head `command`.
    pub fn force_flush(&self, command: &str, value_chunk: &[Vec<DbOperationCacheValue>]) -> (r: String)
        ensures
            r@ == insert_sql_inline(command@, row_models(value_chunk@)),
    {
        render_insert_inline(command, value_chunk)
    }

    /// The statements that create a table and record its definition, given as `json`.
    pub fn add_to_table_list(&self, table: &DatabaseTable, json: &str) -> (r: Vec<String>)
        ensures
            views(r@) == seq![
                join(create_lines(table@), "\n"@),
                "INSERT IGNORE INTO `table_list` (`name`,`json`) VALUES(\""@ + escaped(table@.name) + "\",\""@
                    + escaped(json@) + "\")"@,
            ],
    {
        let create = table.create_statement();
        let mut insert = cat("INSERT IGNORE INTO `table_list` (`name`,`json`) VALUES(\"",
            Self::sql_escape(table.table_name()).as_str());
        insert.append("\",\"");
        insert.append(Self::sql_escape(json).as_str());
        insert.append("\")");
        let r = vec![create, insert];
        assert(views(r@) =~= seq![r@[0]@, r@[1]@]);
        r
    }
}

} // verus!
