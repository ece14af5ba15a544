//! The raw schema: a report as the XML deserializer hands it over, one type
//! for each element of the grammar and nothing interpreted yet.

use vstd::prelude::*;

verus! {

/// A duration in seconds, kept as the bit pattern of the IEEE 754
/// single-precision number that the deserializer read. The library carries
/// it and never computes with it; two durations are equal where their bits
/// are.
#[derive(Debug, Clone, Copy, PartialEq, Eq)]
pub struct Seconds {
    pub bits: u32,
}

/// The root of a document: either several suites in a `<testsuites>`
/// element, or one bare `<testsuite>`.
#[derive(Debug, Clone, PartialEq)]
#[allow(inconsistent_fields)]
pub enum TestSuites {
    Testsuites {
        disabled: Option<u32>,
        errors: Option<u32>,
        failures: Option<u32>,
        name: Option<String>,
        tests: Option<u32>,
        time: Option<String>,
        testsuite: Vec<TestSuite>,
    },
    Testsuite {
        name: String,
        tests: u32,
        disabled: Option<u32>,
        errors: Option<u32>,
        failures: Option<u32>,
        hostname: Option<String>,
        id: Option<String>,
        package: Option<String>,
        skipped: Option<String>,
        time: Option<Seconds>,
        timestamp: Option<String>,
        properties: Option<Properties>,
        testcase: Option<Vec<TestCase>>,
        system_out: Option<SystemOut>,
        system_err: Option<SystemErr>,
    },
}

impl TestSuites {
    /// The bare root read as a suite of its own: every attribute and child
    /// as it stands. A `<testsuites>` root is no suite.
    pub open spec fn bare(self) -> Option<TestSuite> {
        match self {
            TestSuites::Testsuites { .. } => None,
            TestSuites::Testsuite {
                name,
                tests,
                disabled,
                errors,
                failures,
                hostname,
                id,
                package,
                skipped,
                time,
                timestamp,
                properties,
                testcase,
                system_out,
                system_err,
            } => Some(
                TestSuite {
                    name,
                    tests: Some(tests),
                    disabled,
                    errors,
                    failures,
                    hostname,
                    id,
                    package,
                    skipped,
                    time,
                    timestamp,
                    properties,
                    testcase,
                    system_out,
                    system_err,
                },
            ),
        }
    }
}

/// A `<testsuite>` element inside `<testsuites>`.
#[derive(Debug, Clone, PartialEq)]
pub struct TestSuite {
    pub name: String,
    pub tests: Option<u32>,
    pub disabled: Option<u32>,
    pub errors: Option<u32>,
    pub failures: Option<u32>,
    pub hostname: Option<String>,
    pub id: Option<String>,
    pub package: Option<String>,
    pub skipped: Option<String>,
    pub time: Option<Seconds>,
    pub timestamp: Option<String>,
    pub properties: Option<Properties>,
    pub testcase: Option<Vec<TestCase>>,
    pub system_out: Option<SystemOut>,
    pub system_err: Option<SystemErr>,
}

/// A `<testcase>` element.
#[derive(Debug, Clone, PartialEq)]
pub struct TestCase {
    pub name: String,
    pub assertions: Option<String>,
    pub classname: String,
    pub status: Option<String>,
    pub time: Seconds,
    pub skipped: Option<Skipped>,
    pub error: Option<Error>,
    pub failure: Option<Failure>,
    pub system_out: Option<SystemOut>,
    pub system_err: Option<SystemErr>,
}

/// A `<skipped>` element.
#[derive(Debug, Clone, PartialEq)]
pub struct Skipped {
    pub message: String,
}

/// An `<error>` element; `description` is its text.
#[derive(Debug, Clone, PartialEq)]
pub struct Error {
    pub message: String,
    pub error_type: String,
    pub description: String,
}

/// A `<failure>` element; `description` is its text.
#[derive(Debug, Clone, PartialEq)]
pub struct Failure {
    pub message: String,
    pub failure_type: String,
    pub description: String,
}

/// A `<system-out>` element; `value` is its text.
#[derive(Debug, Clone, PartialEq)]
pub struct SystemOut {
    pub value: String,
}

/// A `<system-err>` element; `value` is its text.
#[derive(Debug, Clone, PartialEq)]
pub struct SystemErr {
    pub value: String,
}

/// A `<property>` element.
#[derive(Debug, Clone, PartialEq)]
pub struct Property {
    pub name: String,
    pub value: String,
}

/// A `<properties>` element; `value` holds its children in document order.
#[derive(Debug, Clone, PartialEq)]
pub struct Properties {
    pub value: Vec<Property>,
}

/// A named source.
#[derive(Debug, Clone, PartialEq)]
pub struct Item {
    pub name: String,
    pub source: String,
}

} // verus!
