use vstd::prelude::*;

use crate::text::str_equal;

verus! {

/// Conditions that the framework provides for choosing loader rules, besides
/// those that users declare.
#[derive(PartialEq, Eq, Structural, Clone, Copy, Debug, PartialOrd, Ord, Hash)]
pub enum WebpackLoaderBuiltinCondition {
    /// Treated as always present.
    Default,
    /// Client-side code.
    Browser,
    /// Code in `node_modules`, which loaders should usually leave alone.
    Foreign,
    Development,
    Production,
    /// Server code on the Node.js runtime.
    Node,
    /// Server code on the edge runtime.
    EdgeLight,
}

/// The name under which a condition is written in configuration.
pub open spec fn condition_name(c: WebpackLoaderBuiltinCondition) -> Seq<char> {
    match c {
        WebpackLoaderBuiltinCondition::Default => "default"@,
        WebpackLoaderBuiltinCondition::Browser => "browser"@,
        WebpackLoaderBuiltinCondition::Foreign => "foreign"@,
        WebpackLoaderBuiltinCondition::Development => "development"@,
        WebpackLoaderBuiltinCondition::Production => "production"@,
        WebpackLoaderBuiltinCondition::Node => "node"@,
        WebpackLoaderBuiltinCondition::EdgeLight => "edge-light"@,
    }
}

/// The condition written as `s`, if any.
pub open spec fn condition_named(s: Seq<char>) -> Option<WebpackLoaderBuiltinCondition> {
    if s == "default"@ {
        Some(WebpackLoaderBuiltinCondition::Default)
    } else if s == "browser"@ {
        Some(WebpackLoaderBuiltinCondition::Browser)
    } else if s == "foreign"@ {
        Some(WebpackLoaderBuiltinCondition::Foreign)
    } else if s == "development"@ {
        Some(WebpackLoaderBuiltinCondition::Development)
    } else if s == "production"@ {
        Some(WebpackLoaderBuiltinCondition::Production)
    } else if s == "node"@ {
        Some(WebpackLoaderBuiltinCondition::Node)
    } else if s == "edge-light"@ {
        Some(WebpackLoaderBuiltinCondition::EdgeLight)
    } else {
        None
    }
}

impl WebpackLoaderBuiltinCondition {
    /// The name under which this condition is written in configuration.
    pub fn as_str(self) -> (r: &'static str)
        ensures
            r@ == condition_name(self),
    {
        match self {
            WebpackLoaderBuiltinCondition::Default => "default",
            WebpackLoaderBuiltinCondition::Browser => "browser",
            WebpackLoaderBuiltinCondition::Foreign => "foreign",
            WebpackLoaderBuiltinCondition::Development => "development",
            WebpackLoaderBuiltinCondition::Production => "production",
            WebpackLoaderBuiltinCondition::Node => "node",
            WebpackLoaderBuiltinCondition::EdgeLight => "edge-light",
        }
    }

    /// The condition written as `s`; `Err` for any other text.
    pub fn from_str(s: &str) -> (r: Result<WebpackLoaderBuiltinCondition, ()>)
        ensures
            match condition_named(s@) {
                Some(c) => r == Ok::<_, ()>(c),
                None => r is Err,
            },
    {
        if str_equal(s, "default") {
            Ok(WebpackLoaderBuiltinCondition::Default)
        } else if str_equal(s, "browser") {
            Ok(WebpackLoaderBuiltinCondition::Browser)
        } else if str_equal(s, "foreign") {
            Ok(WebpackLoaderBuiltinCondition::Foreign)
        } else if str_equal(s, "development") {
            Ok(WebpackLoaderBuiltinCondition::Development)
        } else if str_equal(s, "production") {
            Ok(WebpackLoaderBuiltinCondition::Production)
        } else if str_equal(s, "node") {
            Ok(WebpackLoaderBuiltinCondition::Node)
        } else if str_equal(s, "edge-light") {
            Ok(WebpackLoaderBuiltinCondition::EdgeLight)
        } else {
            Err(())
        }
    }

    /// Whether `s` is the name of this condition.
    pub fn is_named(self, s: &str) -> (r: bool)
        ensures
            r == (s@ == condition_name(self)),
    {
        str_equal(s, self.as_str())
    }
}

impl std::str::FromStr for WebpackLoaderBuiltinCondition {
    type Err = ();

    fn from_str(s: &str) -> Result<WebpackLoaderBuiltinCondition, ()> {
        WebpackLoaderBuiltinCondition::from_str(s)
    }
}

impl PartialEq<WebpackLoaderBuiltinCondition> for &str {
    fn eq(&self, other: &WebpackLoaderBuiltinCondition) -> (r: bool) {
        other.is_named(self)
    }
}

impl vstd::std_specs::cmp::PartialEqSpecImpl<WebpackLoaderBuiltinCondition> for &str {
    open spec fn obeys_eq_spec() -> bool {
        true
    }

    open spec fn eq_spec(&self, other: &WebpackLoaderBuiltinCondition) -> bool {
        self@ == condition_name(*other)
    }
}

/// Reading back the name of a condition gives the condition.
pub proof fn law_condition_name_round_trip(c: WebpackLoaderBuiltinCondition)
    ensures
        condition_named(condition_name(c)) == Some(c),
{
    reveal_strlit("default");
    reveal_strlit("browser");
    reveal_strlit("foreign");
    reveal_strlit("development");
    reveal_strlit("production");
    reveal_strlit("node");
    reveal_strlit("edge-light");
    assert("default"@[0] == 'd' && "default"@.len() == 7);
    assert("browser"@[0] == 'b');
    assert("foreign"@[0] == 'f');
    assert("development"@[0] == 'd' && "development"@.len() == 11);
    assert("production"@[0] == 'p');
    assert("node"@[0] == 'n');
    assert("edge-light"@[0] == 'e');
}

} // verus!
