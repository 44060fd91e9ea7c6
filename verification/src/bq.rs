use vstd::prelude::*;

use crate::{args_view, cmd_is, CommandSpec, Tool};

verus! {

use vstd::string::StringExecFns;

/// The data-warehouse table slot of the Resource Model. An empty dataset or
/// table identifier means the identifier is to be generated; a non-empty one
/// is pre-set and is never overwritten.
#[derive(Debug, Clone)]
pub struct BqTable {
    pub project_id: String,
    pub dataset_id: String,
    pub table_id: String,
}

/// `<project>:<dataset>.<table>`.
pub open spec fn flat_of(t: BqTable) -> Seq<char> {
    t.project_id@ + ":"@ + t.dataset_id@ + "."@ + t.table_id@
}

/// The arguments of a dataset-creation command for `<project>:<dataset>`.
pub open spec fn dataset_create_args(project: Seq<char>, dataset: Seq<char>) -> Seq<Seq<char>> {
    seq!["mk"@, "--dataset"@, project + ":"@ + dataset]
}

/// The arguments of a table-creation command for `<project>:<dataset>.<table>`.
pub open spec fn table_create_args(
    project: Seq<char>,
    dataset: Seq<char>,
    table: Seq<char>,
) -> Seq<Seq<char>> {
    seq!["mk"@, "--table"@, project + ":"@ + dataset + "."@ + table, "data: JSON"@]
}

/// The command that creates the dataset `<project>:<dataset>` under its
/// caller-chosen name.
pub fn create_dataset_unnamed(dataset_id: &String, project_id: &String) -> (r: CommandSpec)
    ensures
        cmd_is(r, Tool::Bq, dataset_create_args(project_id@, dataset_id@)),
{
    let mut id = project_id.clone();
    id.append(":");
    id.append(dataset_id.as_str());
    let mut args: Vec<String> = Vec::new();
    args.push("mk".to_owned());
    args.push("--dataset".to_owned());
    args.push(id);
    proof {
        assert(args_view(args@) =~= dataset_create_args(project_id@, dataset_id@));
    }
    CommandSpec { tool: Tool::Bq, args }
}

/// The command that creates the table `<project>:<dataset>.<table>` with the
/// fixed single-column schema.
pub fn create_table(dataset_id: &String, table_id: &String, project_id: &String) -> (r:
    CommandSpec)
    ensures
        cmd_is(r, Tool::Bq, table_create_args(project_id@, dataset_id@, table_id@)),
{
    let mut id = project_id.clone();
    id.append(":");
    id.append(dataset_id.as_str());
    id.append(".");
    id.append(table_id.as_str());
    let mut args: Vec<String> = Vec::new();
    args.push("mk".to_owned());
    args.push("--table".to_owned());
    args.push(id);
    args.push("data: JSON".to_owned());
    proof {
        assert(args_view(args@) =~= table_create_args(project_id@, dataset_id@, table_id@));
    }
    CommandSpec { tool: Tool::Bq, args }
}

impl BqTable {
    pub fn new(project_id: &str, dataset_id: &str, table_id: &str) -> (r: Self)
        ensures
            r.project_id@ == project_id@,
            r.dataset_id@ == dataset_id@,
            r.table_id@ == table_id@,
    {
        Self {
            project_id: project_id.to_owned(),
            dataset_id: dataset_id.to_owned(),
            table_id: table_id.to_owned(),
        }
    }

    /// The table's full identifier, `<project>:<dataset>.<table>`.
    pub fn flatten(&self) -> (r: String)
        ensures
            r@ == flat_of(*self),
    {
        let mut s = self.project_id.clone();
        s.append(":");
        s.append(self.dataset_id.as_str());
        s.append(".");
        s.append(self.table_id.as_str());
        s
    }

    /// The full identifier as the command-line option that selects the table.
    pub fn formatted_flatten(&self) -> (r: String)
        ensures
            r@ == "--bigquery-table="@ + flat_of(*self),
    {
        let mut s = "--bigquery-table=".to_owned();
        let flat = self.flatten();
        s.append(flat.as_str());
        s
    }

    /// The `CreateTable` stage's decisions. A pre-set dataset identifier is
    /// kept verbatim and one dataset-creation command is issued for it; an
    /// empty one is filled from `resolved_dataset` — the identifier the naming
    /// resolver's successful attempt already created, so no further
    /// dataset-creation command is issued. An empty table identifier defaults
    /// to the fixed name `table1`; a pre-set one is kept verbatim. Exactly one
    /// table-creation command is issued, after any dataset command.
    pub fn create(&mut self, resolved_dataset: Option<String>) -> (r: Vec<CommandSpec>)
        requires
            (old(self).dataset_id@.len() == 0) <==> resolved_dataset is Some,
        ensures
            final(self).project_id == old(self).project_id,
            old(self).dataset_id@.len() == 0 ==> final(self).dataset_id@
                == resolved_dataset->Some_0@,
            old(self).dataset_id@.len() > 0 ==> final(self).dataset_id == old(self).dataset_id,
            old(self).table_id@.len() == 0 ==> final(self).table_id@ == "table1"@,
            old(self).table_id@.len() > 0 ==> final(self).table_id == old(self).table_id,
            r@.len() == (if old(self).dataset_id@.len() == 0 {
                1int
            } else {
                2int
            }),
            old(self).dataset_id@.len() > 0 ==> cmd_is(
                r@[0],
                Tool::Bq,
                dataset_create_args(old(self).project_id@, old(self).dataset_id@),
            ),
            cmd_is(
                r@[r@.len() - 1],
                Tool::Bq,
                table_create_args(
                    final(self).project_id@,
                    final(self).dataset_id@,
                    final(self).table_id@,
                ),
            ),
    {
        let mut cmds: Vec<CommandSpec> = Vec::new();
        match resolved_dataset {
            Some(d) => {
                self.dataset_id = d;
            },
            None => {
                let mut id = self.project_id.clone();
                id.append(":");
                id.append(self.dataset_id.as_str());
                let mut args: Vec<String> = Vec::new();
                args.push("mk".to_owned());
                args.push("--dataset".to_owned());
                args.push(id);
                proof {
                    assert(args_view(args@) =~= dataset_create_args(
                        self.project_id@,
                        self.dataset_id@,
                    ));
                }
                cmds.push(CommandSpec { tool: Tool::Bq, args });
            },
        }
        if self.table_id.as_str().is_empty() {
            self.table_id = "table1".to_owned();
        }
        let flat = self.flatten();
        let mut targs: Vec<String> = Vec::new();
        targs.push("mk".to_owned());
        targs.push("--table".to_owned());
        targs.push(flat);
        targs.push("data: JSON".to_owned());
        proof {
            assert(args_view(targs@) =~= table_create_args(
                self.project_id@,
                self.dataset_id@,
                self.table_id@,
            ));
        }
        cmds.push(CommandSpec { tool: Tool::Bq, args: targs });
        cmds
    }
}

} // verus!
