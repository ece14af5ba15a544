//! The canonical model of a report, and the normalizer that builds it from
//! a raw document.

use vstd::prelude::*;
use crate::date_time::{parse, parsed, Instant};
use crate::errors::XunitError;
use crate::read_xml;
use crate::read_xml::Seconds;

verus! {

/// What an [`Error`] or a [`Failure`] says.
pub struct OutcomeModel {
    pub message: Seq<char>,
    pub kind: Seq<char>,
    pub description: Seq<char>,
}

/// What a [`Property`] says.
pub struct PropertyModel {
    pub name: Seq<char>,
    pub value: Seq<char>,
}

/// What an [`Item`] says.
pub struct ItemModel {
    pub name: Seq<char>,
    pub source: Seq<char>,
}

/// What a [`TestCase`] says.
pub struct CaseModel {
    pub name: Seq<char>,
    pub assertions: Option<Seq<char>>,
    pub classname: Seq<char>,
    pub status: Option<Seq<char>>,
    pub time: Seconds,
    pub skipped: Option<Seq<char>>,
    pub error: Option<OutcomeModel>,
    pub failure: Option<OutcomeModel>,
    pub system_out: Option<Seq<char>>,
    pub system_err: Option<Seq<char>>,
}

/// What a [`TestSuite`] says.
pub struct SuiteModel {
    pub name: Seq<char>,
    pub tests: Option<u32>,
    pub disabled: Option<u32>,
    pub errors: Option<u32>,
    pub failures: Option<u32>,
    pub hostname: Option<Seq<char>>,
    pub id: Option<Seq<char>>,
    pub package: Option<Seq<char>>,
    pub skipped: Option<Seq<char>>,
    pub time: Option<Seconds>,
    pub timestamp: Option<Instant>,
    pub properties: Seq<PropertyModel>,
    pub testcase: Seq<CaseModel>,
    pub system_out: Option<Seq<char>>,
    pub system_err: Option<Seq<char>>,
}

/// What an [`Xunit`] says.
pub struct ReportModel {
    pub disabled: Option<u32>,
    pub errors: Option<u32>,
    pub failures: Option<u32>,
    pub name: Option<Seq<char>>,
    pub tests: Option<u32>,
    pub time: Option<Seq<char>>,
    pub testsuite: Seq<SuiteModel>,
}

/// An outcome with its value replaced by what the value says.
pub open spec fn viewed<T: View>(outcome: Result<T, XunitError>) -> Result<T::V, XunitError> {
    match outcome {
        Ok(value) => Ok(value@),
        Err(error) => Err(error),
    }
}

/// A test that ended in an error; `error_type` classifies it and
/// `description` holds the body of the element.
#[derive(Debug, Clone, PartialEq)]
pub struct Error {
    pub message: String,
    pub error_type: String,
    pub description: String,
}

impl View for Error {
    type V = OutcomeModel;

    open spec fn view(&self) -> OutcomeModel {
        OutcomeModel {
            message: self.message@,
            kind: self.error_type@,
            description: self.description@,
        }
    }
}

impl From<read_xml::Error> for Error {
    /// Maps the raw element field by field.
    fn from(value: read_xml::Error) -> (error: Error)
        ensures
            error == Error::normalized(value),
    {
        Error {
            message: value.message,
            error_type: value.error_type,
            description: value.description,
        }
    }
}

impl Error {
    /// What a raw `<error>` denotes: the same three texts.
    pub open spec fn normalized(value: read_xml::Error) -> Error {
        Error {
            message: value.message,
            error_type: value.error_type,
            description: value.description,
        }
    }
}

impl vstd::std_specs::convert::FromSpecImpl<read_xml::Error> for Error {
    open spec fn obeys_from_spec() -> bool {
        true
    }

    open spec fn from_spec(value: read_xml::Error) -> Error {
        Error::normalized(value)
    }
}

/// A test that failed an assertion; `failure_type` classifies it and
/// `description` holds the body of the element.
#[derive(Debug, Clone, PartialEq)]
pub struct Failure {
    pub message: String,
    pub failure_type: String,
    pub description: String,
}

impl View for Failure {
    type V = OutcomeModel;

    open spec fn view(&self) -> OutcomeModel {
        OutcomeModel {
            message: self.message@,
            kind: self.failure_type@,
            description: self.description@,
        }
    }
}

impl From<read_xml::Failure> for Failure {
    /// Maps the raw element field by field.
    fn from(value: read_xml::Failure) -> (failure: Failure)
        ensures
            failure == Failure::normalized(value),
    {
        Failure {
            message: value.message,
            failure_type: value.failure_type,
            description: value.description,
        }
    }
}

impl Failure {
    /// What a raw `<failure>` denotes: the same three texts.
    pub open spec fn normalized(value: read_xml::Failure) -> Failure {
        Failure {
            message: value.message,
            failure_type: value.failure_type,
            description: value.description,
        }
    }
}

impl vstd::std_specs::convert::FromSpecImpl<read_xml::Failure> for Failure {
    open spec fn obeys_from_spec() -> bool {
        true
    }

    open spec fn from_spec(value: read_xml::Failure) -> Failure {
        Failure::normalized(value)
    }
}

/// A key and a value that describe the environment of a suite.
#[derive(Debug, Clone, PartialEq)]
pub struct Property {
    pub name: String,
    pub value: String,
}

impl View for Property {
    type V = PropertyModel;

    open spec fn view(&self) -> PropertyModel {
        PropertyModel { name: self.name@, value: self.value@ }
    }
}

impl From<read_xml::Property> for Property {
    /// Maps the raw element field by field.
    fn from(value: read_xml::Property) -> (property: Property)
        ensures
            property == Property::normalized(value),
    {
        Property { name: value.name, value: value.value }
    }
}

impl Property {
    /// What a raw `<property>` denotes: the same name and value.
    pub open spec fn normalized(value: read_xml::Property) -> Property {
        Property { name: value.name, value: value.value }
    }
}

impl vstd::std_specs::convert::FromSpecImpl<read_xml::Property> for Property {
    open spec fn obeys_from_spec() -> bool {
        true
    }

    open spec fn from_spec(value: read_xml::Property) -> Property {
        Property::normalized(value)
    }
}

/// A named source.
#[derive(Debug, Clone, PartialEq)]
pub struct Item {
    pub name: String,
    pub source: String,
}

impl View for Item {
    type V = ItemModel;

    open spec fn view(&self) -> ItemModel {
        ItemModel { name: self.name@, source: self.source@ }
    }
}

impl From<read_xml::Item> for Item {
    /// Maps the raw element field by field.
    fn from(value: read_xml::Item) -> (item: Item)
        ensures
            item == Item::normalized(value),
    {
        Item { name: value.name, source: value.source }
    }
}

impl Item {
    /// What a raw item denotes: the same name and source.
    pub open spec fn normalized(value: read_xml::Item) -> Item {
        Item { name: value.name, source: value.source }
    }
}

impl vstd::std_specs::convert::FromSpecImpl<read_xml::Item> for Item {
    open spec fn obeys_from_spec() -> bool {
        true
    }

    open spec fn from_spec(value: read_xml::Item) -> Item {
        Item::normalized(value)
    }
}

/// One execution of a test. `time` is always there; `skipped` holds the
/// reason where the test was skipped; `error` and `failure` are kept apart
/// and either, both or neither may be present, as the document had them.
#[derive(Debug, Clone, PartialEq)]
pub struct TestCase {
    pub name: String,
    pub assertions: Option<String>,
    pub classname: String,
    pub status: Option<String>,
    pub time: Seconds,
    pub skipped: Option<String>,
    pub error: Option<Error>,
    pub failure: Option<Failure>,
    pub system_out: Option<String>,
    pub system_err: Option<String>,
}

impl View for TestCase {
    type V = CaseModel;

    open spec fn view(&self) -> CaseModel {
        CaseModel {
            name: self.name@,
            assertions: self.assertions.deep_view(),
            classname: self.classname@,
            status: self.status.deep_view(),
            time: self.time,
            skipped: self.skipped.deep_view(),
            error: match self.error {
                Some(error) => Some(error@),
                None => None,
            },
            failure: match self.failure {
                Some(failure) => Some(failure@),
                None => None,
            },
            system_out: self.system_out.deep_view(),
            system_err: self.system_err.deep_view(),
        }
    }
}

impl From<read_xml::TestCase> for TestCase {
    /// Unwraps each optional child element: a skip to its message, an error
    /// or a failure to its fields, captured output to its text. What is
    /// absent stays absent.
    fn from(value: read_xml::TestCase) -> (case: TestCase)
        ensures
            case == TestCase::normalized(value),
    {
        let error = match value.error {
            Some(p) => Some(Error::from(p)),
            None => None,
        };
        let failure = match value.failure {
            Some(p) => Some(Failure::from(p)),
            None => None,
        };
        let system_out = match value.system_out {
            Some(p) => Some(p.value),
            None => None,
        };
        let system_err = match value.system_err {
            Some(p) => Some(p.value),
            None => None,
        };
        let skipped = match value.skipped {
            Some(p) => Some(p.message),
            None => None,
        };
        TestCase {
            name: value.name,
            assertions: value.assertions,
            classname: value.classname,
            status: value.status,
            time: value.time,
            skipped,
            error,
            failure,
            system_out,
            system_err,
        }
    }
}

impl TestCase {
    /// What a raw `<testcase>` denotes: its attributes as they are and each
    /// optional child unwrapped, a skip to its message, an error or a failure
    /// to its fields, captured output to its text.
    pub open spec fn normalized(value: read_xml::TestCase) -> TestCase {
        TestCase {
            name: value.name,
            assertions: value.assertions,
            classname: value.classname,
            status: value.status,
            time: value.time,
            skipped: match value.skipped {
                Some(p) => Some(p.message),
                None => None,
            },
            error: match value.error {
                Some(p) => Some(Error::normalized(p)),
                None => None,
            },
            failure: match value.failure {
                Some(p) => Some(Failure::normalized(p)),
                None => None,
            },
            system_out: match value.system_out {
                Some(p) => Some(p.value),
                None => None,
            },
            system_err: match value.system_err {
                Some(p) => Some(p.value),
                None => None,
            },
        }
    }
}

impl vstd::std_specs::convert::FromSpecImpl<read_xml::TestCase> for TestCase {
    open spec fn obeys_from_spec() -> bool {
        true
    }

    open spec fn from_spec(value: read_xml::TestCase) -> TestCase {
        TestCase::normalized(value)
    }
}

/// A test case that reports no error, no failure and no skip normalizes to
/// one that reports none of the three.
pub proof fn lemma_plain_case_stays_plain(value: read_xml::TestCase)
    requires
        value.error is None,
        value.failure is None,
        value.skipped is None,
    ensures
        TestCase::normalized(value).error is None,
        TestCase::normalized(value).failure is None,
        TestCase::normalized(value).skipped is None,
{
}

/// A suite of test cases. `properties` and `testcase` keep the order of
/// the document; `timestamp`, where present, is an instant read from the
/// document's text.
#[derive(Debug, Clone, PartialEq)]
pub struct TestSuite {
    pub name: String,
    pub tests: Option<u32>,
    pub disabled: Option<u32>,
    pub errors: Option<u32>,
    pub failures: Option<u32>,
    pub hostname: Option<String>,
    pub id: Option<String>,
    pub package: Option<String>,
    pub skipped: Option<String>,
    pub time: Option<Seconds>,
    pub timestamp: Option<Instant>,
    pub properties: Vec<Property>,
    pub testcase: Vec<TestCase>,
    pub system_out: Option<String>,
    pub system_err: Option<String>,
}

impl View for TestSuite {
    type V = SuiteModel;

    open spec fn view(&self) -> SuiteModel {
        SuiteModel {
            name: self.name@,
            tests: self.tests,
            disabled: self.disabled,
            errors: self.errors,
            failures: self.failures,
            hostname: self.hostname.deep_view(),
            id: self.id.deep_view(),
            package: self.package.deep_view(),
            skipped: self.skipped.deep_view(),
            time: self.time,
            timestamp: self.timestamp,
            properties: self.properties@.map_values(|property: Property| property@),
            testcase: self.testcase@.map_values(|case: TestCase| case@),
            system_out: self.system_out.deep_view(),
            system_err: self.system_err.deep_view(),
        }
    }
}

/// Converts the children of a `<properties>` element one by one, in order.
fn convert_properties(raw: Vec<read_xml::Property>) -> (properties: Vec<Property>)
    ensures
        properties@ == raw@.map_values(|p: read_xml::Property| Property::normalized(p)),
{
    let ghost children = raw@;
    let mut properties: Vec<Property> = Vec::new();
    for child in it: raw.into_iter()
        invariant
            it.seq() == children,
            properties@.len() == it.index(),
            forall|at: int|
                0 <= at < properties@.len() ==> properties@[at] == Property::normalized(
                    #[trigger] children[at],
                ),
    {
        properties.push(Property::from(child));
    }
    assert(properties@ =~= children.map_values(|p: read_xml::Property| Property::normalized(p)));
    properties
}

/// Converts the `<testcase>` children of a suite one by one, in order.
fn convert_cases(raw: Vec<read_xml::TestCase>) -> (cases: Vec<TestCase>)
    ensures
        cases@ == raw@.map_values(|c: read_xml::TestCase| TestCase::normalized(c)),
{
    let ghost children = raw@;
    let mut cases: Vec<TestCase> = Vec::new();
    for child in it: raw.into_iter()
        invariant
            it.seq() == children,
            cases@.len() == it.index(),
            forall|at: int|
                0 <= at < cases@.len() ==> cases@[at] == TestCase::normalized(
                    #[trigger] children[at],
                ),
    {
        cases.push(TestCase::from(child));
    }
    assert(cases@ =~= children.map_values(|c: read_xml::TestCase| TestCase::normalized(c)));
    cases
}

impl TestSuite {
    /// The properties of a suite: the children of the wrapper in document
    /// order, and none where the wrapper is absent.
    pub open spec fn properties_of(wrapper: Option<read_xml::Properties>) -> Seq<PropertyModel> {
        match wrapper {
            Some(p) => p.value@.map_values(|p: read_xml::Property| Property::normalized(p)@),
            None => Seq::empty(),
        }
    }

    /// The test cases of a suite: its `<testcase>` children in document
    /// order, and none where it has none.
    pub open spec fn cases_of(children: Option<Vec<read_xml::TestCase>>) -> Seq<CaseModel> {
        match children {
            Some(c) => c@.map_values(|c: read_xml::TestCase| TestCase::normalized(c)@),
            None => Seq::empty(),
        }
    }

    /// What a raw `<testsuite>` denotes once its timestamp has been read as
    /// `timestamp`.
    pub open spec fn model(value: read_xml::TestSuite, timestamp: Option<Instant>) -> SuiteModel {
        SuiteModel {
            name: value.name@,
            tests: value.tests,
            disabled: value.disabled,
            errors: value.errors,
            failures: value.failures,
            hostname: value.hostname.deep_view(),
            id: value.id.deep_view(),
            package: value.package.deep_view(),
            skipped: value.skipped.deep_view(),
            time: value.time,
            timestamp,
            properties: TestSuite::properties_of(value.properties),
            testcase: TestSuite::cases_of(value.testcase),
            system_out: match value.system_out {
                Some(p) => Some(p.value@),
                None => None,
            },
            system_err: match value.system_err {
                Some(p) => Some(p.value@),
                None => None,
            },
        }
    }

    /// The reading of a suite's `timestamp` attribute: nothing where there
    /// is none, else the instant it denotes or the failure to read it.
    pub open spec fn timestamp_of(attribute: Option<String>) -> Result<Option<Instant>, XunitError> {
        match attribute {
            Some(p) => match parsed(p@) {
                Ok(at) => Ok(Some(at)),
                Err(error) => Err(error),
            },
            None => Ok(None),
        }
    }

    /// What normalizing a raw `<testsuite>` ends in: the failure to read its
    /// timestamp, else the suite it denotes.
    pub open spec fn outcome(value: read_xml::TestSuite) -> Result<SuiteModel, XunitError> {
        match TestSuite::timestamp_of(value.timestamp) {
            Ok(timestamp) => Ok(TestSuite::model(value, timestamp)),
            Err(error) => Err(error),
        }
    }

    /// The timestamp, where the suite has one, is a well-formed instant.
    pub open spec fn wf(&self) -> bool {
        self.timestamp matches Some(at) ==> at.wf()
    }

    /// Builds the suite that `value` denotes, with `timestamp` for what its
    /// `timestamp` attribute was read as.
    pub fn with_timestamp(value: read_xml::TestSuite, timestamp: Option<Instant>) -> (suite:
        TestSuite)
        ensures
            suite@ == TestSuite::model(value, timestamp),
    {
        let props: Vec<Property> = match value.properties {
            Some(p) => convert_properties(p.value),
            None => Vec::new(),
        };
        let testcase: Vec<TestCase> = match value.testcase {
            Some(p) => convert_cases(p),
            None => Vec::new(),
        };
        let system_out = match value.system_out {
            Some(p) => Some(p.value),
            None => None,
        };
        let system_err = match value.system_err {
            Some(p) => Some(p.value),
            None => None,
        };
        let suite = TestSuite {
            name: value.name,
            tests: value.tests,
            disabled: value.disabled,
            errors: value.errors,
            failures: value.failures,
            hostname: value.hostname,
            id: value.id,
            package: value.package,
            skipped: value.skipped,
            time: value.time,
            timestamp,
            properties: props,
            testcase,
            system_out,
            system_err,
        };
        proof {
            assert(suite@.properties =~= TestSuite::properties_of(value.properties));
            assert(suite@.testcase =~= TestSuite::cases_of(value.testcase));
        }
        suite
    }
}

impl TryFrom<read_xml::TestSuite> for TestSuite {
    type Error = XunitError;

    /// Reads the timestamp, where there is one, and builds the suite. A
    /// timestamp in neither accepted format ends the conversion with the
    /// parser's failure as it is.
    fn try_from(value: read_xml::TestSuite) -> (outcome: Result<TestSuite, XunitError>)
        ensures
            viewed(outcome) == TestSuite::outcome(value),
            outcome matches Ok(suite) ==> suite.wf(),
    {
        let timestamp = match &value.timestamp {
            Some(p) => Some(parse(p.as_str())?),
            None => None,
        };
        Ok(TestSuite::with_timestamp(value, timestamp))
    }
}

impl vstd::std_specs::convert::TryFromSpecImpl<read_xml::TestSuite> for TestSuite {
    /// What `try_from` returns is stated on `try_from` itself, over what the
    /// suite says: a suite holds vectors, and ghost code cannot build one.
    open spec fn obeys_try_from_spec() -> bool {
        false
    }

    open spec fn try_from_spec(value: read_xml::TestSuite) -> Result<TestSuite, XunitError> {
        arbitrary()
    }
}

/// Missing properties and an empty `<properties>` element come to the same:
/// a suite without properties.
pub proof fn lemma_no_properties(value: read_xml::TestSuite, timestamp: Option<Instant>)
    requires
        value.properties matches Some(wrapper) ==> wrapper.value@.len() == 0,
    ensures
        TestSuite::model(value, timestamp).properties == Seq::<PropertyModel>::empty(),
{
    assert(TestSuite::model(value, timestamp).properties =~= Seq::<PropertyModel>::empty());
}

/// A report: counters and a name for the whole, and its suites in the
/// order of the document. A document whose root is a bare suite becomes a
/// report of that one suite.
#[derive(Debug, Clone, PartialEq)]
pub struct Xunit {
    pub disabled: Option<u32>,
    pub errors: Option<u32>,
    pub failures: Option<u32>,
    pub name: Option<String>,
    pub tests: Option<u32>,
    pub time: Option<String>,
    pub testsuite: Vec<TestSuite>,
}

impl View for Xunit {
    type V = ReportModel;

    open spec fn view(&self) -> ReportModel {
        ReportModel {
            disabled: self.disabled,
            errors: self.errors,
            failures: self.failures,
            name: self.name.deep_view(),
            tests: self.tests,
            time: self.time.deep_view(),
            testsuite: self.testsuite@.map_values(|suite: TestSuite| suite@),
        }
    }
}

/// Every suite of the sequence normalizes.
pub open spec fn all_normalize(raw: Seq<read_xml::TestSuite>) -> bool {
    forall|at: int| 0 <= at < raw.len() ==> TestSuite::outcome(#[trigger] raw[at]) is Ok
}

/// The suite at `at` fails to normalize and none before it does.
pub open spec fn fails_first(raw: Seq<read_xml::TestSuite>, at: int) -> bool {
    &&& 0 <= at < raw.len()
    &&& TestSuite::outcome(raw[at]) is Err
    &&& forall|before: int| 0 <= before < at ==> TestSuite::outcome(#[trigger] raw[before]) is Ok
}

/// What normalizing the suites of a document ends in: every suite in
/// document order where each of them normalizes, else the failure of the
/// first that does not.
pub open spec fn suites_outcome(raw: Seq<read_xml::TestSuite>) -> Result<
    Seq<SuiteModel>,
    XunitError,
> {
    if all_normalize(raw) {
        Ok(raw.map_values(|suite: read_xml::TestSuite| TestSuite::outcome(suite)->Ok_0))
    } else {
        let at = choose|at: int| fails_first(raw, at);
        Err(TestSuite::outcome(raw[at])->Err_0)
    }
}

/// At most one suite fails first.
pub proof fn lemma_first_failure_is_unique(raw: Seq<read_xml::TestSuite>, at: int, other: int)
    requires
        fails_first(raw, at),
        fails_first(raw, other),
    ensures
        at == other,
{
    if at < other {
        assert(TestSuite::outcome(raw[at]) is Ok);
    } else if other < at {
        assert(TestSuite::outcome(raw[other]) is Ok);
    }
}

/// Converts the suites of a document in order and stops at the first that
/// fails.
fn convert_suites(raw: Vec<read_xml::TestSuite>) -> (outcome: Result<Vec<TestSuite>, XunitError>)
    ensures
        match outcome {
            Ok(suites) => suites_outcome(raw@) == Ok::<Seq<SuiteModel>, XunitError>(
                suites@.map_values(|suite: TestSuite| suite@),
            ),
            Err(error) => suites_outcome(raw@) == Err::<Seq<SuiteModel>, XunitError>(error),
        },
        outcome matches Ok(suites) ==> forall|at: int|
            0 <= at < suites@.len() ==> (#[trigger] suites@[at]).wf(),
{
    let ghost children = raw@;
    let mut suites: Vec<TestSuite> = Vec::new();
    for child in it: raw.into_iter()
        invariant
            it.seq() == children,
            suites@.len() == it.index(),
            forall|at: int|
                0 <= at < suites@.len() ==> TestSuite::outcome(#[trigger] children[at]) == Ok::<
                    SuiteModel,
                    XunitError,
                >(suites@[at]@),
            forall|at: int| 0 <= at < suites@.len() ==> (#[trigger] suites@[at]).wf(),
    {
        let ghost here = suites@.len() as int;
        match TestSuite::try_from(child) {
            Ok(suite) => {
                suites.push(suite);
            },
            Err(error) => {
                proof {
                    assert(fails_first(children, here));
                    lemma_first_failure_is_unique(
                        children,
                        here,
                        choose|at: int| fails_first(children, at),
                    );
                }
                return Err(error);
            },
        }
    }
    proof {
        assert(all_normalize(children));
        assert(suites@.map_values(|suite: TestSuite| suite@) =~= children.map_values(
            |suite: read_xml::TestSuite| TestSuite::outcome(suite)->Ok_0,
        ));
    }
    Ok(suites)
}

impl Xunit {
    /// What normalizing a raw document ends in. Under a `<testsuites>` root
    /// the counters, the name and the time pass through and the suites are
    /// converted in order, the first failure ending it all. A bare
    /// `<testsuite>` root becomes a report of that one suite, with the
    /// suite's counters and name for its own and no time.
    pub open spec fn outcome(value: read_xml::TestSuites) -> Result<ReportModel, XunitError> {
        match value {
            read_xml::TestSuites::Testsuites {
                disabled,
                errors,
                failures,
                name,
                tests,
                time,
                testsuite,
            } => match suites_outcome(testsuite@) {
                Ok(suites) => Ok(
                    ReportModel {
                        disabled,
                        errors,
                        failures,
                        name: name.deep_view(),
                        tests,
                        time: time.deep_view(),
                        testsuite: suites,
                    },
                ),
                Err(error) => Err(error),
            },
            read_xml::TestSuites::Testsuite { name, tests, disabled, errors, failures, .. } => match TestSuite::outcome(
                value.bare()->Some_0,
            ) {
                Ok(suite) => Ok(
                    ReportModel {
                        disabled,
                        errors,
                        failures,
                        name: Some(name@),
                        tests: Some(tests),
                        time: None,
                        testsuite: seq![suite],
                    },
                ),
                Err(error) => Err(error),
            },
        }
    }

    /// What normalizing ends in, given how deserializing the text ended: a
    /// failure of the deserializer is an XML failure with its diagnostic,
    /// and a document is normalized.
    pub open spec fn xml_outcome(parsed: Result<read_xml::TestSuites, String>) -> Result<
        ReportModel,
        XunitError,
    > {
        match parsed {
            Ok(item) => Xunit::outcome(item),
            Err(diagnostic) => Err(XunitError::Xml(diagnostic)),
        }
    }

    /// Every suite of the report is well formed.
    pub open spec fn wf(&self) -> bool {
        forall|at: int| 0 <= at < self.testsuite@.len() ==> (#[trigger] self.testsuite@[at]).wf()
    }

    /// Finishes what the deserializer began: hands on its failure, or
    /// normalizes the document it produced.
    pub fn try_from_xml(parsed: Result<read_xml::TestSuites, String>) -> (outcome: Result<
        Xunit,
        XunitError,
    >)
        ensures
            viewed(outcome) == Xunit::xml_outcome(parsed),
            outcome matches Ok(report) ==> report.wf(),
    {
        match parsed {
            Ok(item) => Xunit::try_from(item),
            Err(diagnostic) => Err(XunitError::Xml(diagnostic)),
        }
    }
}

impl TryFrom<read_xml::TestSuites> for Xunit {
    type Error = XunitError;

    /// Resolves the shape of the root and normalizes every suite under it.
    /// The first failure anywhere is the result, and no report is built.
    fn try_from(value: read_xml::TestSuites) -> (outcome: Result<Xunit, XunitError>)
        ensures
            viewed(outcome) == Xunit::outcome(value),
            outcome matches Ok(report) ==> report.wf(),
    {
        match value {
            read_xml::TestSuites::Testsuites {
                disabled,
                errors,
                failures,
                name,
                tests,
                time,
                testsuite,
            } => {
                let suites = convert_suites(testsuite)?;
                Ok(Xunit { disabled, errors, failures, name, tests, time, testsuite: suites })
            },
            read_xml::TestSuites::Testsuite {
                name,
                tests,
                disabled,
                errors,
                failures,
                hostname,
                id,
                package,
                skipped,
                time,
                timestamp,
                properties,
                testcase,
                system_out,
                system_err,
            } => {
                let root = read_xml::TestSuite {
                    name: name.clone(),
                    tests: Some(tests),
                    disabled,
                    errors,
                    failures,
                    hostname,
                    id,
                    package,
                    skipped,
                    time,
                    timestamp,
                    properties,
                    testcase,
                    system_out,
                    system_err,
                };
                let suite = TestSuite::try_from(root)?;
                let ghost only = suite@;
                let mut suites: Vec<TestSuite> = Vec::new();
                suites.push(suite);
                let report = Xunit {
                    disabled,
                    errors,
                    failures,
                    name: Some(name),
                    tests: Some(tests),
                    time: None,
                    testsuite: suites,
                };
                proof {
                    assert(report@.testsuite =~= seq![only]);
                }
                Ok(report)
            },
        }
    }
}

impl vstd::std_specs::convert::TryFromSpecImpl<read_xml::TestSuites> for Xunit {
    /// What `try_from` returns is stated on `try_from` itself, over what the
    /// report says: a report holds vectors, and ghost code cannot build one.
    open spec fn obeys_try_from_spec() -> bool {
        false
    }

    open spec fn try_from_spec(value: read_xml::TestSuites) -> Result<Xunit, XunitError> {
        arbitrary()
    }
}

/// Under a `<testsuites>` root the first suite that fails decides: the
/// whole document fails, with the failure of that suite.
pub proof fn lemma_first_failure_decides(value: read_xml::TestSuites, at: int)
    requires
        value is Testsuites,
        fails_first(value->testsuite@, at),
    ensures
        Xunit::outcome(value) == Err::<ReportModel, XunitError>(
            TestSuite::outcome(value->testsuite@[at])->Err_0,
        ),
{
    let children = value->testsuite@;
    lemma_first_failure_is_unique(children, at, choose|at: int| fails_first(children, at));
}

/// Under a `<testsuites>` root a report has one suite for each
/// `<testsuite>` child, and they stand in the order of the document: the
/// suite at each place is what the child at that place normalizes to.
pub proof fn lemma_suites_keep_document_order(value: read_xml::TestSuites)
    requires
        value is Testsuites,
        Xunit::outcome(value) is Ok,
    ensures
        Xunit::outcome(value)->Ok_0.testsuite.len() == value->testsuite@.len(),
        forall|at: int|
            0 <= at < value->testsuite@.len() ==> TestSuite::outcome(
                #[trigger] value->testsuite@[at],
            ) == Ok::<SuiteModel, XunitError>(Xunit::outcome(value)->Ok_0.testsuite[at]),
{
    assert(all_normalize(value->testsuite@));
}

/// Where not every suite normalizes, one of them is the first to fail.
pub proof fn lemma_some_suite_fails_first(raw: Seq<read_xml::TestSuite>)
    requires
        !all_normalize(raw),
    ensures
        exists|first: int| fails_first(raw, first),
{
    let at = choose|at: int| 0 <= at < raw.len() && !(TestSuite::outcome(#[trigger] raw[at]) is Ok);
    lemma_failure_has_a_first(raw, at);
}

/// Where the suite at `at` fails, a suite at or before `at` fails first.
proof fn lemma_failure_has_a_first(raw: Seq<read_xml::TestSuite>, at: int)
    requires
        0 <= at < raw.len(),
        TestSuite::outcome(raw[at]) is Err,
    ensures
        exists|first: int| fails_first(raw, first),
    decreases at,
{
    if exists|before: int| 0 <= before < at && TestSuite::outcome(#[trigger] raw[before]) is Err {
        let before = choose|before: int|
            0 <= before < at && TestSuite::outcome(#[trigger] raw[before]) is Err;
        lemma_failure_has_a_first(raw, before);
    } else {
        assert(fails_first(raw, at));
    }
}

/// A report exists exactly where every suite of the document normalizes;
/// else the document fails as the first failing suite does.
pub proof fn lemma_report_or_first_failure(value: read_xml::TestSuites)
    requires
        value is Testsuites,
    ensures
        Xunit::outcome(value) is Ok <==> all_normalize(value->testsuite@),
        Xunit::outcome(value) matches Err(error) ==> exists|at: int|
            fails_first(value->testsuite@, at) && TestSuite::outcome(value->testsuite@[at])
                == Err::<SuiteModel, XunitError>(error),
{
    let children = value->testsuite@;
    if !all_normalize(children) {
        lemma_some_suite_fails_first(children);
        let at = choose|at: int| fails_first(children, at);
        assert(fails_first(children, at) && TestSuite::outcome(children[at]) == Err::<
            SuiteModel,
            XunitError,
        >(Xunit::outcome(value)->Err_0));
    }
}

/// A document whose root is a bare `<testsuite>` normalizes to a report of
/// exactly one suite, and that suite is what the root normalizes to when it
/// is read as a suite of its own. The report has the counters and the
/// name of its suite and no time. It fails exactly where the suite does,
/// and with the same failure.
pub proof fn lemma_bare_suite_stands_alone(value: read_xml::TestSuites)
    requires
        value is Testsuite,
    ensures
        match TestSuite::outcome(value.bare()->Some_0) {
            Ok(suite) => {
                &&& Xunit::outcome(value) matches Ok(report)
                &&& report.testsuite == seq![suite]
                &&& report.disabled == suite.disabled
                &&& report.errors == suite.errors
                &&& report.failures == suite.failures
                &&& report.tests == suite.tests
                &&& report.name == Some(suite.name)
                &&& report.time is None
            },
            Err(error) => Xunit::outcome(value) == Err::<ReportModel, XunitError>(error),
        },
{
}

/// Normalizing twice what one deserialization ended in ends the same way
/// both times: in two reports that say the same, or in the same failure.
pub proof fn lemma_normalizing_twice_agrees(
    parsed: Result<read_xml::TestSuites, String>,
    first: Result<Xunit, XunitError>,
    second: Result<Xunit, XunitError>,
)
    requires
        viewed(first) == Xunit::xml_outcome(parsed),
        viewed(second) == Xunit::xml_outcome(parsed),
    ensures
        viewed(first) == viewed(second),
{
}

} // verus!
