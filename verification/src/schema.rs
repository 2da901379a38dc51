//! The schema of the journal's database and the migration that creates it.
//!
//! The database holds three tables: `profile`, `accounts` and `trades`. A
//! trade belongs to one account, which a foreign key states.

use vstd::prelude::*;

verus! {

/// The storage classes that the schema uses.
#[derive(Debug, Clone, Copy, PartialEq, Eq, Structural)]
pub enum ColumnType {
    Integer,
    Text,
    Real,
}

/// What a column's definition says beyond its type.
#[derive(Debug, Clone, Copy, PartialEq, Eq, Structural)]
pub enum ColumnRule {
    /// Nothing: the column may hold no value.
    Nullable,
    /// The column always holds a value.
    NotNull,
    /// The column is the table's key.
    PrimaryKey,
    /// The column is the table's key, and the database assigns it.
    PrimaryKeyAutoincrement,
    /// The column holds 0 where no value is given.
    DefaultZero,
}

/// A column of a table.
#[derive(Debug)]
pub struct Column {
    pub name: &'static str,
    pub kind: ColumnType,
    pub rule: ColumnRule,
}

/// A column as plain values.
pub struct ColumnView {
    pub name: Seq<char>,
    pub kind: ColumnType,
    pub rule: ColumnRule,
}

impl View for Column {
    type V = ColumnView;

    open spec fn view(&self) -> ColumnView {
        ColumnView { name: self.name@, kind: self.kind, rule: self.rule }
    }
}

/// A foreign key: `column` of the table that holds the key refers to the
/// column `references` of `table`.
#[derive(Debug)]
pub struct ForeignKey {
    pub column: &'static str,
    pub table: &'static str,
    pub references: &'static str,
}

/// A foreign key as plain values.
pub struct ForeignKeyView {
    pub column: Seq<char>,
    pub table: Seq<char>,
    pub references: Seq<char>,
}

impl View for ForeignKey {
    type V = ForeignKeyView;

    open spec fn view(&self) -> ForeignKeyView {
        ForeignKeyView { column: self.column@, table: self.table@, references: self.references@ }
    }
}

/// A table: its columns in order, then its foreign keys.
#[derive(Debug)]
pub struct Table {
    pub name: &'static str,
    pub columns: Vec<Column>,
    pub foreign_keys: Vec<ForeignKey>,
}

/// A table as plain values.
pub struct TableView {
    pub name: Seq<char>,
    pub columns: Seq<ColumnView>,
    pub foreign_keys: Seq<ForeignKeyView>,
}

impl View for Table {
    type V = TableView;

    open spec fn view(&self) -> TableView {
        TableView {
            name: self.name@,
            columns: self.columns@.map_values(|c: Column| c@),
            foreign_keys: self.foreign_keys@.map_values(|k: ForeignKey| k@),
        }
    }
}

/// The tables as plain values.
pub open spec fn tables_view(tables: Seq<Table>) -> Seq<TableView> {
    tables.map_values(|t: Table| t@)
}

/// A column by its three parts.
pub open spec fn column(name: Seq<char>, kind: ColumnType, rule: ColumnRule) -> ColumnView {
    ColumnView { name, kind, rule }
}

/// The table of the trader's profile.
pub open spec fn profile_table() -> TableView {
    TableView {
        name: "profile"@,
        columns: seq![
            column("id"@, ColumnType::Integer, ColumnRule::PrimaryKey),
            column("name"@, ColumnType::Text, ColumnRule::NotNull),
            column("email"@, ColumnType::Text, ColumnRule::Nullable),
            column("experience"@, ColumnType::Text, ColumnRule::NotNull),
            column("currency"@, ColumnType::Text, ColumnRule::NotNull),
            column("timezone"@, ColumnType::Text, ColumnRule::NotNull),
        ],
        foreign_keys: Seq::empty(),
    }
}

/// The table of the accounts.
pub open spec fn accounts_table() -> TableView {
    TableView {
        name: "accounts"@,
        columns: seq![
            column("id"@, ColumnType::Integer, ColumnRule::PrimaryKeyAutoincrement),
            column("name"@, ColumnType::Text, ColumnRule::NotNull),
            column("type"@, ColumnType::Text, ColumnRule::NotNull),
            column("initial_balance"@, ColumnType::Real, ColumnRule::NotNull),
            column("current_balance"@, ColumnType::Real, ColumnRule::NotNull),
            column("broker"@, ColumnType::Text, ColumnRule::NotNull),
            column("leverage"@, ColumnType::Text, ColumnRule::NotNull),
            column("instruments"@, ColumnType::Text, ColumnRule::Nullable),
        ],
        foreign_keys: Seq::empty(),
    }
}

/// The table of the trades.
pub open spec fn trades_table() -> TableView {
    TableView {
        name: "trades"@,
        columns: seq![
            column("id"@, ColumnType::Integer, ColumnRule::PrimaryKeyAutoincrement),
            column("account_id"@, ColumnType::Integer, ColumnRule::NotNull),
            column("symbol"@, ColumnType::Text, ColumnRule::NotNull),
            column("type"@, ColumnType::Text, ColumnRule::NotNull),
            column("entry_price"@, ColumnType::Real, ColumnRule::NotNull),
            column("exit_price"@, ColumnType::Real, ColumnRule::Nullable),
            column("take_profit"@, ColumnType::Real, ColumnRule::NotNull),
            column("stop_loss"@, ColumnType::Real, ColumnRule::NotNull),
            column("lot_size"@, ColumnType::Real, ColumnRule::NotNull),
            column("volume"@, ColumnType::Real, ColumnRule::NotNull),
            column("profit"@, ColumnType::Real, ColumnRule::NotNull),
            column("commission"@, ColumnType::Real, ColumnRule::DefaultZero),
            column("rr_ratio"@, ColumnType::Text, ColumnRule::Nullable),
            column("strategy"@, ColumnType::Text, ColumnRule::Nullable),
            column("session"@, ColumnType::Text, ColumnRule::Nullable),
            column("duration"@, ColumnType::Text, ColumnRule::Nullable),
            column("date"@, ColumnType::Text, ColumnRule::NotNull),
        ],
        foreign_keys: seq![
            ForeignKeyView { column: "account_id"@, table: "accounts"@, references: "id"@ },
        ],
    }
}

/// The journal's schema: exactly these three tables.
pub open spec fn journal_schema() -> Seq<TableView> {
    seq![profile_table(), accounts_table(), trades_table()]
}

/// The rule makes the column the key of its table.
pub open spec fn is_key(rule: ColumnRule) -> bool {
    rule == ColumnRule::PrimaryKey || rule == ColumnRule::PrimaryKeyAutoincrement
}

/// A table is sound: it has columns, no two of them have one name, and its
/// first column is its key and no other is.
pub open spec fn table_sound(t: TableView) -> bool {
    &&& t.columns.len() > 0
    &&& forall|i: int, j: int|
        0 <= i < j < t.columns.len() ==> (#[trigger] t.columns[i]).name != (
        #[trigger] t.columns[j]).name
    &&& forall|i: int|
        0 <= i < t.columns.len() ==> (is_key((#[trigger] t.columns[i]).rule) <==> i == 0)
}

/// The foreign key `k` of the table `t` can be enforced in the schema: column
/// `i` of `t` is the key's column, table `j` of the schema is the table that
/// the key refers to, and what it refers to there is that table's key, of the
/// type of the key's column.
pub open spec fn key_resolves_at(
    tables: Seq<TableView>,
    t: TableView,
    k: ForeignKeyView,
    i: int,
    j: int,
) -> bool {
    &&& 0 <= i < t.columns.len()
    &&& 0 <= j < tables.len()
    &&& t.columns[i].name == k.column
    &&& tables[j].name == k.table
    &&& tables[j].columns.len() > 0
    &&& tables[j].columns[0].name == k.references
    &&& is_key(tables[j].columns[0].rule)
    &&& tables[j].columns[0].kind == t.columns[i].kind
}

/// The foreign key `k` of the table `t` can be enforced in the schema.
pub open spec fn key_resolves(tables: Seq<TableView>, t: TableView, k: ForeignKeyView) -> bool {
    exists|i: int, j: int| key_resolves_at(tables, t, k, i, j)
}

/// A schema is sound: no two tables have one name, every table is sound, and
/// every foreign key can be enforced.
pub open spec fn schema_sound(tables: Seq<TableView>) -> bool {
    &&& forall|i: int, j: int|
        0 <= i < j < tables.len() ==> (#[trigger] tables[i]).name != (#[trigger] tables[j]).name
    &&& forall|i: int| 0 <= i < tables.len() ==> table_sound(#[trigger] tables[i])
    &&& forall|i: int, k: int|
        0 <= i < tables.len() && 0 <= k < tables[i].foreign_keys.len() ==> key_resolves(
            tables,
            tables[i],
            #[trigger] tables[i].foreign_keys[k],
        )
}

/// The table of the profile is sound.
proof fn lemma_profile_table_sound()
    ensures
        table_sound(profile_table()),
{
    reveal_strlit("id");
    reveal_strlit("name");
    reveal_strlit("email");
    reveal_strlit("experience");
    reveal_strlit("currency");
    reveal_strlit("timezone");
    let columns = profile_table().columns;
    assert forall|i: int, j: int| 0 <= i < j < columns.len() implies (#[trigger] columns[i]).name
        != (#[trigger] columns[j]).name by {
        let a = columns[i].name;
        let b = columns[j].name;
        assert(a.len() != b.len() || a[0] != b[0]);
    }
}

/// The table of the accounts is sound.
proof fn lemma_accounts_table_sound()
    ensures
        table_sound(accounts_table()),
{
    reveal_strlit("id");
    reveal_strlit("name");
    reveal_strlit("type");
    reveal_strlit("initial_balance");
    reveal_strlit("current_balance");
    reveal_strlit("broker");
    reveal_strlit("leverage");
    reveal_strlit("instruments");
    let columns = accounts_table().columns;
    assert forall|i: int, j: int| 0 <= i < j < columns.len() implies (#[trigger] columns[i]).name
        != (#[trigger] columns[j]).name by {
        let a = columns[i].name;
        let b = columns[j].name;
        assert(a.len() != b.len() || a[0] != b[0]);
    }
}

/// The table of the trades is sound.
proof fn lemma_trades_table_sound()
    ensures
        table_sound(trades_table()),
{
    reveal_strlit("id");
    reveal_strlit("account_id");
    reveal_strlit("symbol");
    reveal_strlit("type");
    reveal_strlit("entry_price");
    reveal_strlit("exit_price");
    reveal_strlit("take_profit");
    reveal_strlit("stop_loss");
    reveal_strlit("lot_size");
    reveal_strlit("volume");
    reveal_strlit("profit");
    reveal_strlit("commission");
    reveal_strlit("rr_ratio");
    reveal_strlit("strategy");
    reveal_strlit("session");
    reveal_strlit("duration");
    reveal_strlit("date");
    let columns = trades_table().columns;
    assert forall|i: int, j: int| 0 <= i < j < columns.len() implies (#[trigger] columns[i]).name
        != (#[trigger] columns[j]).name by {
        let a = columns[i].name;
        let b = columns[j].name;
        assert(a.len() != b.len() || a[0] != b[0]);
    }
}

/// The journal's schema is sound: it has three tables of three names, each
/// with its key in front, and a trade's `account_id` refers to the key of
/// `accounts`.
pub proof fn lemma_journal_schema_sound()
    ensures
        journal_schema().len() == 3,
        schema_sound(journal_schema()),
{
    let tables = journal_schema();
    lemma_profile_table_sound();
    lemma_accounts_table_sound();
    lemma_trades_table_sound();
    assert(tables[0].name.len() == 7 && tables[1].name.len() == 8 && tables[2].name.len() == 6) by {
        reveal_strlit("profile");
        reveal_strlit("accounts");
        reveal_strlit("trades");
    }
    assert(key_resolves_at(tables, tables[2], tables[2].foreign_keys[0], 1, 1));
}

/// Adds a column at the end of `columns`.
fn push_column(columns: &mut Vec<Column>, name: &'static str, kind: ColumnType, rule: ColumnRule)
    ensures
        final(columns)@.map_values(|c: Column| c@) == old(columns)@.map_values(|c: Column| c@).push(
            column(name@, kind, rule),
        ),
{
    columns.push(Column { name, kind, rule });
    assert(columns@.map_values(|c: Column| c@) =~= old(columns)@.map_values(|c: Column| c@).push(
        column(name@, kind, rule),
    ));
}

impl Table {
    /// The table of the trader's profile.
    pub fn profile() -> (t: Table)
        ensures
            t@ == profile_table(),
    {
        let mut columns: Vec<Column> = Vec::new();
        push_column(&mut columns, "id", ColumnType::Integer, ColumnRule::PrimaryKey);
        push_column(&mut columns, "name", ColumnType::Text, ColumnRule::NotNull);
        push_column(&mut columns, "email", ColumnType::Text, ColumnRule::Nullable);
        push_column(&mut columns, "experience", ColumnType::Text, ColumnRule::NotNull);
        push_column(&mut columns, "currency", ColumnType::Text, ColumnRule::NotNull);
        push_column(&mut columns, "timezone", ColumnType::Text, ColumnRule::NotNull);
        let t = Table { name: "profile", columns, foreign_keys: Vec::new() };
        assert(t@.columns =~= profile_table().columns);
        assert(t@.foreign_keys =~= profile_table().foreign_keys);
        t
    }

    /// The table of the accounts.
    pub fn accounts() -> (t: Table)
        ensures
            t@ == accounts_table(),
    {
        let mut columns: Vec<Column> = Vec::new();
        push_column(&mut columns, "id", ColumnType::Integer, ColumnRule::PrimaryKeyAutoincrement);
        push_column(&mut columns, "name", ColumnType::Text, ColumnRule::NotNull);
        push_column(&mut columns, "type", ColumnType::Text, ColumnRule::NotNull);
        push_column(&mut columns, "initial_balance", ColumnType::Real, ColumnRule::NotNull);
        push_column(&mut columns, "current_balance", ColumnType::Real, ColumnRule::NotNull);
        push_column(&mut columns, "broker", ColumnType::Text, ColumnRule::NotNull);
        push_column(&mut columns, "leverage", ColumnType::Text, ColumnRule::NotNull);
        push_column(&mut columns, "instruments", ColumnType::Text, ColumnRule::Nullable);
        let t = Table { name: "accounts", columns, foreign_keys: Vec::new() };
        assert(t@.columns =~= accounts_table().columns);
        assert(t@.foreign_keys =~= accounts_table().foreign_keys);
        t
    }

    /// The table of the trades.
    pub fn trades() -> (t: Table)
        ensures
            t@ == trades_table(),
    {
        let mut columns: Vec<Column> = Vec::new();
        push_column(&mut columns, "id", ColumnType::Integer, ColumnRule::PrimaryKeyAutoincrement);
        push_column(&mut columns, "account_id", ColumnType::Integer, ColumnRule::NotNull);
        push_column(&mut columns, "symbol", ColumnType::Text, ColumnRule::NotNull);
        push_column(&mut columns, "type", ColumnType::Text, ColumnRule::NotNull);
        push_column(&mut columns, "entry_price", ColumnType::Real, ColumnRule::NotNull);
        push_column(&mut columns, "exit_price", ColumnType::Real, ColumnRule::Nullable);
        push_column(&mut columns, "take_profit", ColumnType::Real, ColumnRule::NotNull);
        push_column(&mut columns, "stop_loss", ColumnType::Real, ColumnRule::NotNull);
        push_column(&mut columns, "lot_size", ColumnType::Real, ColumnRule::NotNull);
        push_column(&mut columns, "volume", ColumnType::Real, ColumnRule::NotNull);
        push_column(&mut columns, "profit", ColumnType::Real, ColumnRule::NotNull);
        push_column(&mut columns, "commission", ColumnType::Real, ColumnRule::DefaultZero);
        push_column(&mut columns, "rr_ratio", ColumnType::Text, ColumnRule::Nullable);
        push_column(&mut columns, "strategy", ColumnType::Text, ColumnRule::Nullable);
        push_column(&mut columns, "session", ColumnType::Text, ColumnRule::Nullable);
        push_column(&mut columns, "duration", ColumnType::Text, ColumnRule::Nullable);
        push_column(&mut columns, "date", ColumnType::Text, ColumnRule::NotNull);
        let mut foreign_keys: Vec<ForeignKey> = Vec::new();
        foreign_keys.push(ForeignKey { column: "account_id", table: "accounts", references: "id" });
        let t = Table { name: "trades", columns, foreign_keys };
        assert(t@.columns =~= trades_table().columns);
        assert(t@.foreign_keys =~= trades_table().foreign_keys);
        t
    }
}

/// The journal's schema.
pub fn schema() -> (tables: Vec<Table>)
    ensures
        tables_view(tables@) == journal_schema(),
{
    let mut tables: Vec<Table> = Vec::new();
    tables.push(Table::profile());
    tables.push(Table::accounts());
    tables.push(Table::trades());
    assert(tables_view(tables@) =~= journal_schema());
    tables
}

/// The white space before a statement: sixteen spaces.
pub const STATEMENT_INDENT: &'static str = "                ";

/// The white space before an item of a statement: twenty spaces.
pub const ITEM_INDENT: &'static str = "                    ";

/// The white space behind the last statement: twelve spaces.
pub const TRAILER: &'static str = "            ";

/// The name of a storage class in SQL.
pub open spec fn type_sql(kind: ColumnType) -> Seq<char> {
    match kind {
        ColumnType::Integer => "INTEGER"@,
        ColumnType::Text => "TEXT"@,
        ColumnType::Real => "REAL"@,
    }
}

/// What a rule adds behind a column's type in SQL.
pub open spec fn rule_sql(rule: ColumnRule) -> Seq<char> {
    match rule {
        ColumnRule::Nullable => Seq::empty(),
        ColumnRule::NotNull => " NOT NULL"@,
        ColumnRule::PrimaryKey => " PRIMARY KEY"@,
        ColumnRule::PrimaryKeyAutoincrement => " PRIMARY KEY AUTOINCREMENT"@,
        ColumnRule::DefaultZero => " DEFAULT 0"@,
    }
}

/// The definition of a column: its name, its type, its rule.
pub open spec fn column_sql(c: ColumnView) -> Seq<char> {
    c.name + " "@ + type_sql(c.kind) + rule_sql(c.rule)
}

/// The table constraint that states a foreign key.
pub open spec fn foreign_key_sql(k: ForeignKeyView) -> Seq<char> {
    "FOREIGN KEY ("@ + k.column + ") REFERENCES "@ + k.table + " ("@ + k.references + ")"@
}

/// The items between the brackets of a table's statement: the columns, then
/// the foreign keys.
pub open spec fn table_items(t: TableView) -> Seq<Seq<char>> {
    t.columns.map_values(|c: ColumnView| column_sql(c)) + t.foreign_keys.map_values(
        |k: ForeignKeyView| foreign_key_sql(k),
    )
}

/// The line of item `i`: the item behind its indent, and a comma behind every
/// item but the last.
pub open spec fn item_line(items: Seq<Seq<char>>, i: int) -> Seq<char> {
    ITEM_INDENT@ + items[i] + if i + 1 < items.len() {
        ",\n"@
    } else {
        "\n"@
    }
}

/// The lines of the first `n` items.
pub open spec fn item_lines(items: Seq<Seq<char>>, n: int) -> Seq<char>
    decreases n,
{
    if n <= 0 {
        Seq::empty()
    } else {
        item_lines(items, n - 1) + item_line(items, n - 1)
    }
}

/// The statement that creates a table unless it exists.
pub open spec fn table_sql(t: TableView) -> Seq<char> {
    STATEMENT_INDENT@ + "CREATE TABLE IF NOT EXISTS "@ + t.name + " (\n"@ + item_lines(
        table_items(t),
        table_items(t).len() as int,
    ) + STATEMENT_INDENT@ + ");\n"@
}

/// The statement of table `i`, behind a line of white space unless it is the
/// first.
pub open spec fn statement(tables: Seq<TableView>, i: int) -> Seq<char> {
    if i == 0 {
        table_sql(tables[i])
    } else {
        STATEMENT_INDENT@ + "\n"@ + table_sql(tables[i])
    }
}

/// The statements of the first `n` tables.
pub open spec fn statements(tables: Seq<TableView>, n: int) -> Seq<char>
    decreases n,
{
    if n <= 0 {
        Seq::empty()
    } else {
        statements(tables, n - 1) + statement(tables, n - 1)
    }
}

/// The SQL text that creates the tables, one statement for each: a line
/// break, the statements, the trailer.
///
/// The white space is part of the text. The SQL plugin records a checksum of
/// the text of a migration that it has applied, and it goes on with a database
/// only while the text still has that checksum.
pub open spec fn schema_sql(tables: Seq<TableView>) -> Seq<char> {
    "\n"@ + statements(tables, tables.len() as int) + TRAILER@
}

/// Writes the line of one item.
fn push_item_line(out: &mut String, item: &str, last: bool)
    ensures
        final(out)@ == old(out)@ + ITEM_INDENT@ + item@ + if last {
            "\n"@
        } else {
            ",\n"@
        },
{
    out.append(ITEM_INDENT);
    out.append(item);
    if last {
        out.append("\n");
    } else {
        out.append(",\n");
    }
}

impl Column {
    /// The column's definition in SQL.
    pub fn to_sql(&self) -> (sql: String)
        ensures
            sql@ == column_sql(self@),
    {
        let mut sql = String::from_str(self.name);
        sql.append(" ");
        sql.append(
            match self.kind {
                ColumnType::Integer => "INTEGER",
                ColumnType::Text => "TEXT",
                ColumnType::Real => "REAL",
            },
        );
        match self.rule {
            ColumnRule::Nullable => {},
            ColumnRule::NotNull => sql.append(" NOT NULL"),
            ColumnRule::PrimaryKey => sql.append(" PRIMARY KEY"),
            ColumnRule::PrimaryKeyAutoincrement => sql.append(" PRIMARY KEY AUTOINCREMENT"),
            ColumnRule::DefaultZero => sql.append(" DEFAULT 0"),
        }
        assert(sql@ =~= column_sql(self@));
        sql
    }
}

impl ForeignKey {
    /// The table constraint that states the key in SQL.
    pub fn to_sql(&self) -> (sql: String)
        ensures
            sql@ == foreign_key_sql(self@),
    {
        let mut sql = String::from_str("FOREIGN KEY (");
        sql.append(self.column);
        sql.append(") REFERENCES ");
        sql.append(self.table);
        sql.append(" (");
        sql.append(self.references);
        sql.append(")");
        assert(sql@ =~= foreign_key_sql(self@));
        sql
    }
}

impl Table {
    /// The statement that creates the table unless it exists.
    pub fn to_sql(&self) -> (sql: String)
        ensures
            sql@ == table_sql(self@),
    {
        let ghost items = table_items(self@);
        let ghost head = STATEMENT_INDENT@ + "CREATE TABLE IF NOT EXISTS "@ + self.name@
            + " (\n"@;
        let mut sql = String::from_str(STATEMENT_INDENT);
        sql.append("CREATE TABLE IF NOT EXISTS ");
        sql.append(self.name);
        sql.append(" (\n");
        let columns = self.columns.len();
        let keys = self.foreign_keys.len();
        let mut i: usize = 0;
        while i < columns
            invariant
                i <= columns == self.columns@.len(),
                keys == self.foreign_keys@.len(),
                items == table_items(self@),
                sql@ == head + item_lines(items, i as int),
            decreases columns - i,
        {
            let item = self.columns[i].to_sql();
            assert(items[i as int] == item@);
            push_item_line(&mut sql, item.as_str(), keys == 0 && i + 1 == columns);
            assert(sql@ =~= head + item_lines(items, i + 1));
            i = i + 1;
        }
        let mut j: usize = 0;
        while j < keys
            invariant
                j <= keys == self.foreign_keys@.len(),
                columns == self.columns@.len(),
                items == table_items(self@),
                sql@ == head + item_lines(items, columns + j),
            decreases keys - j,
        {
            let item = self.foreign_keys[j].to_sql();
            assert(items[columns + j] == item@);
            push_item_line(&mut sql, item.as_str(), j + 1 == keys);
            assert(sql@ =~= head + item_lines(items, columns + j + 1));
            j = j + 1;
        }
        sql.append(STATEMENT_INDENT);
        sql.append(");\n");
        assert(sql@ =~= table_sql(self@));
        sql
    }
}

/// The SQL text that creates the tables.
pub fn create_tables_sql(tables: &Vec<Table>) -> (sql: String)
    ensures
        sql@ == schema_sql(tables_view(tables@)),
{
    let ghost views = tables_view(tables@);
    let mut sql = String::from_str("\n");
    let mut i: usize = 0;
    while i < tables.len()
        invariant
            i <= tables@.len(),
            views == tables_view(tables@),
            sql@ == "\n"@ + statements(views, i as int),
        decreases tables@.len() - i,
    {
        if i > 0 {
            sql.append(STATEMENT_INDENT);
            sql.append("\n");
        }
        let table = tables[i].to_sql();
        sql.append(table.as_str());
        assert(sql@ =~= "\n"@ + statements(views, i + 1));
        i = i + 1;
    }
    sql.append(TRAILER);
    sql
}

/// The direction of a migration.
#[derive(Debug, Clone, Copy, PartialEq, Eq, Structural)]
pub enum MigrationKind {
    Up,
    Down,
}

/// A step that changes the schema of the database.
#[derive(Debug)]
pub struct Migration {
    pub version: i64,
    pub description: &'static str,
    pub sql: String,
    pub kind: MigrationKind,
}

/// Where the SQL plugin finds the database.
pub const DATABASE_URL: &'static str = "sqlite:trading_journal.db";

/// The migrations of the journal's database: one, of version 1, which creates
/// the three tables of the schema.
pub fn migrations() -> (list: Vec<Migration>)
    ensures
        list@.len() == 1,
        list@[0].version == 1,
        list@[0].description@ == "create initial tables"@,
        list@[0].sql@ == schema_sql(journal_schema()),
        list@[0].kind == MigrationKind::Up,
{
    let tables = schema();
    let sql = create_tables_sql(&tables);
    let mut list: Vec<Migration> = Vec::new();
    list.push(
        Migration {
            version: 1,
            description: "create initial tables",
            sql,
            kind: MigrationKind::Up,
        },
    );
    list
}

} // verus!
