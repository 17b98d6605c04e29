//! The bridge to the graph engine: the store, the queries put to it and the
//! shape in which their answers come back.

use oxigraph::io::{RdfFormat, RdfParser};
use oxigraph::model::IriParseError;
use oxigraph::sparql::Query as ParsedQuery;
use oxigraph::sparql::{
    EvaluationError, QueryResults, QuerySolution, QuerySolutionIter, SparqlSyntaxError,
};
use oxigraph::store::{LoaderError, StorageError, Store};
use vstd::prelude::*;

verus! {

/// The engine's dataset. Nothing of its contents is visible here.
#[verifier::external_type_specification]
#[verifier::external_body]
pub struct ExStore(Store);

/// The engine's error for a store that cannot be set up.
#[verifier::external_type_specification]
#[verifier::external_body]
pub struct ExStorageError(StorageError);

/// The engine's error for a dataset that cannot be read.
#[verifier::external_type_specification]
#[verifier::external_body]
pub struct ExLoaderError(LoaderError);

/// The engine's error for a base identifier that is no absolute IRI.
#[verifier::external_type_specification]
#[verifier::external_body]
pub struct ExIriParseError(IriParseError);

/// The engine's error for a query that cannot be run.
#[verifier::external_type_specification]
#[verifier::external_body]
pub struct ExEvaluationError(EvaluationError);

/// The engine's error for a text that is no query.
#[verifier::external_type_specification]
#[verifier::external_body]
pub struct ExSparqlSyntaxError(SparqlSyntaxError);

/// A query as the engine holds it once it has read it.
#[verifier::external_type_specification]
#[verifier::external_body]
pub struct ExParsedQuery(ParsedQuery);

/// The engine's reader of datasets.
#[verifier::external_type_specification]
#[verifier::external_body]
pub struct ExRdfParser(RdfParser);

/// The engine's answer to a query, of whichever kind.
#[verifier::external_type_specification]
#[verifier::external_body]
pub struct ExQueryResults(QueryResults);

/// The engine's answer to a query that selects: the solutions, one after the other.
#[verifier::external_type_specification]
#[verifier::external_body]
pub struct ExQuerySolutionIter(QuerySolutionIter);

/// One solution: the terms that it binds the query's variables to.
#[verifier::external_type_specification]
#[verifier::external_body]
pub struct ExQuerySolution(QuerySolution);

/// What a `QuerySolution` holds: for each variable that it binds, by the
/// variable's name, the bound term as its `Display` writes it out.
pub uninterp spec fn bindings(solution: QuerySolution) -> Map<Seq<char>, Seq<char>>;

/// Whether `text` is a query of the engine's grammar: whether its parser
/// can take it for one.
pub uninterp spec fn is_query(text: Seq<char>) -> bool;

/// Whether `text` is an absolute IRI: whether `Iri::parse`, which the
/// engine holds every base identifier to, takes it.
pub uninterp spec fn is_absolute_iri(text: Seq<char>) -> bool;

/// What a `Store` holds: its statements, each as the texts of its terms
/// as their `Display` writes them, subject, predicate and object in that
/// order, and behind them the name of the graph where the statement
/// stands in a named one.
pub uninterp spec fn dataset(store: Store) -> Set<Seq<Seq<char>>>;

/// The base identifier of a reader of Turtle that was given a base and no
/// other setting; `None` for every other `RdfParser`.
pub uninterp spec fn turtle_base(parser: RdfParser) -> Option<Seq<char>>;

/// Whether `content` is Turtle that the engine's reader takes to its end
/// when `base` is its base identifier.
pub uninterp spec fn is_turtle(base: Seq<char>, content: Seq<char>) -> bool;

/// What `content`, read as Turtle with `base` as its base identifier,
/// states of named things and literals, each statement written as
/// `dataset` writes them. A statement with a blank node in it is not
/// among them: the engine gives blank nodes names of its own, by chance.
pub uninterp spec fn stated(base: Seq<char>, content: Seq<char>) -> Set<Seq<Seq<char>>>;

/// What a load that went well has done to a dataset: nothing that was
/// there is lost, and what the content states is there.
pub open spec fn holds_loaded(
    before: Store,
    after: Store,
    base: Seq<char>,
    content: Seq<char>,
) -> bool {
    &&& dataset(before).subset_of(dataset(after))
    &&& stated(base, content).subset_of(dataset(after))
}

/// `Store::new` sets up a dataset in memory that holds nothing. It returns
/// a `Result`, but this kind of store has nothing that could fail.
#[verifier::external_body]
pub(crate) fn open_store() -> (opened: Result<Store, StorageError>)
    ensures
        opened is Ok,
        opened matches Ok(store) ==> dataset(store) == Set::<Seq<Seq<char>>>::empty(),
{
    Store::new()
}

/// `Query::try_from` a text, which is how `Store::query` reads one: the
/// text is parsed by the engine's grammar. What is read is a query of that
/// grammar. The other way round is not claimed: the parser makes up names
/// for variables of its own by chance, and would refuse a query in which
/// it met one of them.
#[verifier::external_body]
fn parse_query(text: &str) -> (parsed: Result<ParsedQuery, SparqlSyntaxError>)
    ensures
        parsed is Ok ==> is_query(text@),
{
    ParsedQuery::try_from(text)
}

/// `Store::query` on a query that was read before: runs it on the dataset.
/// What comes back depends on the dataset, and for some queries on the
/// clock or on chance, so nothing is claimed of it.
#[verifier::external_body]
fn run_query(store: &Store, query: ParsedQuery) -> (answer: Result<
    QueryResults,
    EvaluationError,
>) {
    store.query(query)
}

/// Takes a `QueryResults` apart by its three variants: only the answer to
/// a selecting query has solutions; a truth value and a graph have none.
#[verifier::external_body]
fn into_solutions(results: QueryResults) -> (solutions: Option<QuerySolutionIter>) {
    match results {
        QueryResults::Solutions(solutions) => Some(solutions),
        QueryResults::Boolean(_) => None,
        QueryResults::Graph(_) => None,
    }
}

/// `QuerySolutionIter::variables`, each variable by its name (`Variable::as_str`).
#[verifier::external_body]
fn variable_names(solutions: &QuerySolutionIter) -> (names: Vec<String>) {
    solutions.variables().iter().map(|variable| variable.as_str().to_owned()).collect()
}

/// `Iterator::collect` on a `QuerySolutionIter`: runs the iterator to its
/// end and keeps what it gave, solution or error, in the order given.
#[verifier::external_body]
fn collect_solutions(solutions: QuerySolutionIter) -> (found: Vec<
    Result<QuerySolution, EvaluationError>,
>) {
    solutions.collect()
}

/// `QuerySolution::get` by the variable's name, the term written out by its
/// `Display`: `None` where the solution does not bind the variable. The
/// answer is what `bindings` holds for the solution under that name.
#[verifier::external_body]
fn bound_text(solution: &QuerySolution, variable: &str) -> (text: Option<String>)
    ensures
        text matches Some(t) ==> bindings(*solution).contains_key(variable@) && bindings(
            *solution,
        )[variable@] == t@,
        text is None ==> !bindings(*solution).contains_key(variable@),
{
    solution.get(variable).map(|term| term.to_string())
}

/// `RdfParser::from_format` for Turtle, then `RdfParser::with_base_iri`,
/// which for Turtle holds the base to `Iri::parse` and does nothing else
/// that could fail: it gives a reader for a base that is an absolute IRI,
/// and for no other, and the reader has that base and no other setting.
#[verifier::external_body]
fn turtle_parser(base_iri: &str) -> (parser: Result<RdfParser, IriParseError>)
    ensures
        parser is Ok <==> is_absolute_iri(base_iri@),
        parser matches Ok(reader) ==> turtle_base(reader) == Some(base_iri@),
{
    RdfParser::from_format(RdfFormat::Turtle).with_base_iri(base_iri)
}

/// `Store::load_from_reader` on the bytes of `text`, for a reader as
/// `turtle_parser` gives them. It reads every statement before it writes
/// any, and writing to a store in memory cannot fail: so it goes well for
/// just the texts that the reader takes, a refused text leaves the store
/// untouched, and a text that is taken adds its statements and takes
/// none away.
#[verifier::external_body]
fn load_text(store: &mut Store, parser: RdfParser, text: &str) -> (loaded: Result<
    (),
    LoaderError,
>)
    requires
        turtle_base(parser) is Some,
    ensures
        loaded is Ok <==> is_turtle(turtle_base(parser)->0, text@),
        loaded is Err ==> *final(store) == *old(store),
        loaded is Ok ==> dataset(*old(store)).subset_of(dataset(*final(store))),
        loaded is Ok ==> stated(turtle_base(parser)->0, text@).subset_of(dataset(*final(store))),
{
    store.load_from_reader(parser, text.as_bytes())
}

/// The cell of a solution under a column: the term that the solution binds
/// the column's variable to, and nothing where it binds none.
pub open spec fn cell(solution: QuerySolution, column: Seq<char>) -> Seq<char> {
    if bindings(solution).contains_key(column) {
        bindings(solution)[column]
    } else {
        Seq::empty()
    }
}

/// The row of a solution: one cell for each column, in the columns' order.
pub open spec fn row_of(solution: QuerySolution, columns: Seq<Seq<char>>) -> Seq<Seq<char>> {
    Seq::new(columns.len(), |j: int| cell(solution, columns[j]))
}

/// The rows of what a query gave: one for each solution that the engine
/// could compute, in the order in which they came; what it failed on is
/// left out.
pub open spec fn rows_of(
    found: Seq<Result<QuerySolution, EvaluationError>>,
    columns: Seq<Seq<char>>,
) -> Seq<Seq<Seq<char>>>
    decreases found.len(),
{
    if found.len() == 0 {
        Seq::empty()
    } else {
        match found.last() {
            Ok(solution) => rows_of(found.drop_last(), columns).push(row_of(solution, columns)),
            Err(_) => rows_of(found.drop_last(), columns),
        }
    }
}

/// Every row of `rows_of` has one cell for each column.
pub proof fn lemma_rows_are_rectangular(
    found: Seq<Result<QuerySolution, EvaluationError>>,
    columns: Seq<Seq<char>>,
)
    ensures
        rows_of(found, columns).len() <= found.len(),
        forall|i: int|
            0 <= i < rows_of(found, columns).len() ==> (#[trigger] rows_of(found, columns)[i]).len()
                == columns.len(),
    decreases found.len(),
{
    if found.len() > 0 {
        lemma_rows_are_rectangular(found.drop_last(), columns);
    }
}

/// Writes out one solution as a row of cells.
pub fn row_cells(solution: &QuerySolution, columns: &Vec<String>) -> (cells: Vec<String>)
    ensures
        cells.deep_view() == row_of(*solution, columns.deep_view()),
{
    let mut cells: Vec<String> = Vec::new();
    let mut j: usize = 0;
    while j < columns.len()
        invariant
            j <= columns.len(),
            cells.len() == j,
            forall|k: int| 0 <= k < j ==> (#[trigger] cells[k])@ == cell(*solution, columns[k]@),
        decreases columns.len() - j,
    {
        let text = match bound_text(solution, columns[j].as_str()) {
            Some(text) => text,
            None => String::new(),
        };
        cells.push(text);
        j += 1;
    }
    assert(cells.deep_view() =~= row_of(*solution, columns.deep_view()));
    cells
}

/// Writes out what a query gave as rows of cells, leaving out the
/// solutions that the engine failed on.
pub fn tabulate(
    found: &Vec<Result<QuerySolution, EvaluationError>>,
    columns: &Vec<String>,
) -> (rows: Vec<Vec<String>>)
    ensures
        rows.deep_view() == rows_of(found@, columns.deep_view()),
{
    let mut rows: Vec<Vec<String>> = Vec::new();
    let mut i: usize = 0;
    assert(found@.take(0) =~= Seq::empty());
    while i < found.len()
        invariant
            i <= found.len(),
            rows.deep_view() == rows_of(found@.take(i as int), columns.deep_view()),
        decreases found.len() - i,
    {
        let ghost before = rows.deep_view();
        assert(found@.take(i + 1).drop_last() =~= found@.take(i as int));
        assert(found@.take(i + 1).last() == found@[i as int]);
        match &found[i] {
            Ok(solution) => {
                let cells = row_cells(solution, columns);
                rows.push(cells);
                assert(rows.deep_view() =~= before.push(cells.deep_view()));
            },
            Err(_) => {},
        }
        i += 1;
    }
    assert(found@.take(found.len() as int) =~= found@);
    rows
}

/// Why the engine refused.
#[derive(Debug)]
pub enum EngineError {
    /// The store could not be set up.
    Storage(StorageError),
    /// The text is no query.
    Syntax(SparqlSyntaxError),
    /// The base identifier of a dataset is no absolute IRI.
    BaseIri(IriParseError),
    /// The dataset could not be read.
    Load(LoaderError),
    /// The query could not be run.
    Evaluation(EvaluationError),
}

/// What the engine made of a query.
#[derive(Clone, Debug, PartialEq, Eq)]
pub enum QueryOutcome {
    /// The query selects: the names of its columns, and for each solution
    /// one cell per column.
    Rows { columns: Vec<String>, rows: Vec<Vec<String>> },
    /// The query asks or describes: there are no rows to show.
    NonTabular,
}

impl QueryOutcome {
    /// Every row has one cell for each column.
    pub open spec fn is_rectangular(&self) -> bool {
        match *self {
            QueryOutcome::Rows { columns, rows } => forall|i: int|
                0 <= i < rows.len() ==> (#[trigger] rows[i]).len() == columns.len(),
            QueryOutcome::NonTabular => true,
        }
    }
}

/// Puts `text` to the engine as a query on `store` and brings the answer
/// into shape: the rows of a selecting query, with the names of the
/// query's variables as columns; no rows for a query of another kind; the
/// engine's error for a text that it cannot read, which every text
/// outside its grammar is, or for a query that it cannot run.
pub fn evaluate(store: &Store, text: &str) -> (reply: Result<QueryOutcome, EngineError>)
    ensures
        !is_query(text@) ==> reply matches Err(EngineError::Syntax(_)),
        reply matches Ok(outcome) ==> is_query(text@) && outcome.is_rectangular(),
        reply matches Err(error) ==> error is Syntax || error is Evaluation,
{
    let query = match parse_query(text) {
        Err(error) => {
            return Err(EngineError::Syntax(error));
        },
        Ok(query) => query,
    };
    match run_query(store, query) {
        Err(error) => Err(EngineError::Evaluation(error)),
        Ok(results) => match into_solutions(results) {
            None => Ok(QueryOutcome::NonTabular),
            Some(solutions) => {
                let columns = variable_names(&solutions);
                let found = collect_solutions(solutions);
                let rows = tabulate(&found, &columns);
                proof {
                    lemma_rows_are_rectangular(found@, columns.deep_view());
                    assert forall|i: int| 0 <= i < rows.len() implies (#[trigger] rows[i]).len()
                        == columns.len() by {
                        assert(rows.deep_view()[i].len() == rows[i].len());
                    }
                }
                Ok(QueryOutcome::Rows { columns, rows })
            },
        },
    }
}

/// The base identifier of a dataset read from a file: `file://` and then
/// the absolute path of the file.
pub open spec fn base_iri_of(path: Seq<char>) -> Seq<char> {
    "file://"@ + path
}

/// The base identifier of the dataset in the file at `path`, which is to
/// be absolute.
pub fn base_iri(path: &str) -> (iri: String)
    ensures
        iri@ == base_iri_of(path@),
{
    let mut iri = "file://".to_owned();
    iri.append(path);
    iri
}

/// Whether a load with this base and content goes well: the base is an
/// absolute IRI, and the content is Turtle under it.
pub open spec fn loads(base: Seq<char>, content: Seq<char>) -> bool {
    is_absolute_iri(base) && is_turtle(base, content)
}

/// Reads `content` as Turtle with `base` as its base identifier and adds
/// what it says to `store`. A base that is no absolute IRI is refused
/// before anything is read, and content that is no Turtle once it has
/// been read to the point where it fails; either way the store is left
/// untouched. Content that is taken adds its statements to the store and
/// takes none away.
pub fn load_turtle(store: &mut Store, base: &str, content: &str) -> (loaded: Result<
    (),
    EngineError,
>)
    ensures
        loaded is Ok <==> loads(base@, content@),
        loaded matches Err(EngineError::BaseIri(_)) <==> !is_absolute_iri(base@),
        loaded matches Err(EngineError::Load(_)) <==> is_absolute_iri(base@) && !is_turtle(
            base@,
            content@,
        ),
        loaded is Err ==> *final(store) == *old(store),
        loaded is Ok ==> holds_loaded(*old(store), *final(store), base@, content@),
{
    match turtle_parser(base) {
        Err(error) => Err(EngineError::BaseIri(error)),
        Ok(parser) => match load_text(store, parser, content) {
            Err(error) => Err(EngineError::Load(error)),
            Ok(()) => Ok(()),
        },
    }
}

} // verus!
