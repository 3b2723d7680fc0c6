//! The parameters that a query passes along an edge, and the filter of the
//! advisory history that is read from them.

use crate::advisory::{known_arch, known_os, severity_of_text, Arch, Os, Severity};
use crate::text_map::TextMap;
use crate::value::{AdapterError, FieldValue, FieldValueView};
use vstd::prelude::*;

verus! {

/// The parameters of an edge, by name.
pub type EdgeParameters = TextMap<FieldValue>;

/// The content of the parameters of an edge, value by value.
pub open spec fn parameters_view(parameters: EdgeParameters) -> Map<Seq<char>, FieldValueView> {
    parameters@.map_values(|value: FieldValue| value@)
}

/// The truth value of a parameter, if it is present and holds one.
pub open spec fn boolean_parameter(parameters: Map<Seq<char>, FieldValueView>, name: Seq<char>)
    -> Option<bool> {
    if parameters.contains_key(name) {
        match parameters[name] {
            FieldValueView::Boolean(b) => Some(b),
            _ => None,
        }
    } else {
        None
    }
}

/// The text of a parameter, if it is present and holds one.
pub open spec fn text_parameter(parameters: Map<Seq<char>, FieldValueView>, name: Seq<char>)
    -> Option<Seq<char>> {
    if parameters.contains_key(name) {
        match parameters[name] {
            FieldValueView::Text(t) => Some(t),
            _ => None,
        }
    } else {
        None
    }
}

/// Reads a parameter that holds a truth value.
pub fn get_boolean(parameters: &EdgeParameters, name: &str) -> (res: Option<bool>)
    ensures
        res == boolean_parameter(parameters_view(*parameters), name@),
{
    match parameters.get(name) {
        Some(value) => value.as_bool(),
        None => None,
    }
}

/// Reads a parameter that holds a text.
pub fn get_text<'a>(parameters: &'a EdgeParameters, name: &str) -> (res: Option<&'a str>)
    ensures
        match text_parameter(parameters_view(*parameters), name@) {
            Some(t) => res matches Some(s) && s@ == t,
            None => res is None,
        },
{
    match parameters.get(name) {
        Some(value) => value.as_str(),
        None => None,
    }
}

/// The filter of an advisory history.
#[derive(Debug)]
pub struct AdvisoryFilter {
    /// Whether withdrawn advisories are wanted too.
    pub include_withdrawn: bool,
    /// The architecture that the advisories must concern.
    pub arch: Option<Arch>,
    /// The operating system that the advisories must concern.
    pub os: Option<Os>,
    /// The lowest severity that is still of interest.
    pub min_severity: Option<Severity>,
}

/// The mathematical content of an [`AdvisoryFilter`].
pub struct AdvisoryFilterView {
    pub include_withdrawn: bool,
    pub arch: Option<Seq<char>>,
    pub os: Option<Seq<char>>,
    pub min_severity: Option<Severity>,
}

impl View for AdvisoryFilter {
    type V = AdvisoryFilterView;

    open spec fn view(&self) -> AdvisoryFilterView {
        AdvisoryFilterView {
            include_withdrawn: self.include_withdrawn,
            arch: self.arch.deep_view(),
            os: self.os.deep_view(),
            min_severity: self.min_severity,
        }
    }
}

/// The filter that the parameters of an advisory history stand for.
///
/// `includeWithdrawn` is required and must hold a truth value. `arch`, `os`
/// and `minSeverity` are optional; where one of them holds a text, the text
/// must name a known architecture, a known operating system or a severity.
/// The first of these demands that fails, in this order, decides the error.
pub open spec fn filter_of(parameters: Map<Seq<char>, FieldValueView>) -> Result<
    AdvisoryFilterView,
    AdapterError,
> {
    match boolean_parameter(parameters, "includeWithdrawn"@) {
        None => Err(AdapterError::MissingParameter),
        Some(include_withdrawn) => {
            let arch = text_parameter(parameters, "arch"@);
            let os = text_parameter(parameters, "os"@);
            let min_severity = text_parameter(parameters, "minSeverity"@);
            if arch is Some && !known_arch(arch->0) {
                Err(AdapterError::UnknownArch)
            } else if os is Some && !known_os(os->0) {
                Err(AdapterError::UnknownOs)
            } else if min_severity is Some && severity_of_text(min_severity->0) is None {
                Err(AdapterError::UnknownSeverity)
            } else {
                Ok(
                    AdvisoryFilterView {
                        include_withdrawn,
                        arch,
                        os,
                        min_severity: match min_severity {
                            Some(text) => severity_of_text(text),
                            None => None,
                        },
                    },
                )
            }
        },
    }
}

/// The content of the outcome of reading a filter.
pub open spec fn filter_result_view(result: Result<AdvisoryFilter, AdapterError>) -> Result<
    AdvisoryFilterView,
    AdapterError,
> {
    match result {
        Ok(filter) => Ok(filter@),
        Err(e) => Err(e),
    }
}

impl AdvisoryFilter {
    /// Reads the filter of an advisory history from the parameters of the
    /// edge.
    pub fn from_parameters(parameters: &EdgeParameters) -> (res: Result<
        AdvisoryFilter,
        AdapterError,
    >)
        ensures
            filter_result_view(res) == filter_of(parameters_view(*parameters)),
    {
        let include_withdrawn = match get_boolean(parameters, "includeWithdrawn") {
            Some(b) => b,
            None => { return Err(AdapterError::MissingParameter); },
        };
        let arch = match get_text(parameters, "arch") {
            Some(text) => match Arch::parse(text) {
                Some(a) => Some(a),
                None => { return Err(AdapterError::UnknownArch); },
            },
            None => None,
        };
        let os = match get_text(parameters, "os") {
            Some(text) => match Os::parse(text) {
                Some(o) => Some(o),
                None => { return Err(AdapterError::UnknownOs); },
            },
            None => None,
        };
        let min_severity = match get_text(parameters, "minSeverity") {
            Some(text) => match Severity::parse(text) {
                Some(s) => Some(s),
                None => { return Err(AdapterError::UnknownSeverity); },
            },
            None => None,
        };
        Ok(AdvisoryFilter { include_withdrawn, arch, os, min_severity })
    }
}

} // verus!
