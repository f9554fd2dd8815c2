//! Human-readable documentation of a descriptor.
//!
//! Rendering is pure formatting over the descriptor's metadata: it performs
//! no resolution and is safe to call at any time. The exact text is pinned
//! down by [`doc_text`], parameterized by the marker strings put in front of
//! the lines; `doc` picks the markers through the `console` crate, which
//! shows an emoji only when the terminal wants one.

use vstd::prelude::*;
use vstd::string::StringExecFns;

use crate::EnvVarDef;
use crate::text::ToText;
use crate::validator::Validator;

verus! {

/// The marker strings documentation rendering puts in front of its lines:
/// one for the name header, one for the title/description block, and one
/// each for the default, example and validator lines.
#[derive(Debug, Clone, PartialEq, Eq)]
pub struct DocStyle {
    pub name_marker: String,
    pub meta_marker: String,
    pub default_marker: String,
    pub example_marker: String,
    pub validator_marker: String,
}

/// The exact text documentation rendering produces for the descriptor `d`
/// under the markers `st`: a header line with the variable name, an optional
/// title/description block, an optional default line, an optional example
/// line (a shell export statement), and an optional validator-description
/// line.
pub open spec fn doc_text<T: ToText + DeepView, V: Validator<T>>(
    d: EnvVarDef<T, V>,
    st: DocStyle,
) -> Seq<char> {
    st.name_marker@ + " "@ + d.name@ + "\n\n"@ + (if d.title is Some || d.description is Some {
        st.meta_marker@
    } else {
        Seq::<char>::empty()
    }) + (match d.title {
        Some(t) => " "@ + t@ + "\n\n"@,
        None => Seq::<char>::empty(),
    }) + (match d.description {
        Some(t) => " "@ + t@ + "\n\n"@,
        None => Seq::<char>::empty(),
    }) + (match d.default {
        Some(v) => st.default_marker@ + "  Default: "@ + v.to_text_spec() + "\n"@,
        None => Seq::<char>::empty(),
    }) + (match d.example {
        Some(v) => st.example_marker@ + " Example: export "@ + d.name@ + "="@ + v.to_text_spec()
            + "\n"@,
        None => Seq::<char>::empty(),
    }) + (match d.validator {
        Some(vl) => match vl.description_spec() {
            Some(ds) => st.validator_marker@ + " "@ + ds + "\n"@,
            None => Seq::<char>::empty(),
        },
        None => Seq::<char>::empty(),
    })
}

/// Whether each marker of `st` is the symbol `doc` uses for its line or the
/// empty fallback shown on terminals without emoji.
pub open spec fn console_markers(st: DocStyle) -> bool {
    (st.name_marker@ == "🔹"@ || st.name_marker@ == ""@) && (st.meta_marker@ == "📖"@
        || st.meta_marker@ == ""@) && (st.default_marker@ == "🛠️"@ || st.default_marker@ == ""@)
        && (st.example_marker@ == "🧪"@ || st.example_marker@ == ""@) && (st.validator_marker@
        == "✅"@ || st.validator_marker@ == ""@)
}

/// Relies on `console::Emoji`: its rendering is the symbol when the terminal
/// wants emoji, and the fallback otherwise.
#[verifier::external_body]
fn emoji_marker(symbol: &str, fallback: &str) -> (r: String)
    ensures
        r@ == symbol@ || r@ == fallback@,
{
    format!("{}", console::Emoji::new(symbol, fallback))
}

impl<T: ToText + DeepView, V: Validator<T>> EnvVarDef<T, V> {
    /// Renders the descriptor's documentation under the given markers:
    /// exactly the text of [`doc_text`]. Pure formatting, no resolution.
    #[verifier::rlimit(100)]
    pub fn doc_styled(&self, st: &DocStyle) -> (r: String)
        ensures
            r@ == doc_text(*self, *st),
    {
        let ghost seg_name = st.name_marker@ + " "@ + self.name@ + "\n\n"@;
        let ghost seg_meta = if self.title is Some || self.description is Some {
            st.meta_marker@
        } else {
            Seq::<char>::empty()
        };
        let ghost seg_title = if self.title is Some {
            " "@ + self.title->0@ + "\n\n"@
        } else {
            Seq::<char>::empty()
        };
        let ghost seg_descr = if self.description is Some {
            " "@ + self.description->0@ + "\n\n"@
        } else {
            Seq::<char>::empty()
        };
        let ghost seg_default = if self.default is Some {
            st.default_marker@ + "  Default: "@ + self.default->0.to_text_spec() + "\n"@
        } else {
            Seq::<char>::empty()
        };
        let ghost seg_example = if self.example is Some {
            st.example_marker@ + " Example: export "@ + self.name@ + "="@
                + self.example->0.to_text_spec() + "\n"@
        } else {
            Seq::<char>::empty()
        };
        let ghost seg_validator = if self.validator is Some
            && self.validator->0.description_spec() is Some {
            st.validator_marker@ + " "@ + self.validator->0.description_spec()->0 + "\n"@
        } else {
            Seq::<char>::empty()
        };
        let mut s = String::new();
        s.append(st.name_marker.as_str());
        s.append(" ");
        s.append(self.name.as_str());
        s.append("\n\n");
        proof {
            assert(s@ =~= seg_name);
        }
        if self.title.is_some() || self.description.is_some() {
            s.append(st.meta_marker.as_str());
        }
        proof {
            assert(s@ =~= seg_name + seg_meta);
        }
        match &self.title {
            Some(t) => {
                s.append(" ");
                s.append(t.as_str());
                s.append("\n\n");
            },
            None => {},
        }
        proof {
            assert(s@ =~= seg_name + seg_meta + seg_title);
        }
        match &self.description {
            Some(t) => {
                s.append(" ");
                s.append(t.as_str());
                s.append("\n\n");
            },
            None => {},
        }
        proof {
            assert(s@ =~= seg_name + seg_meta + seg_title + seg_descr);
        }
        match &self.default {
            Some(v) => {
                s.append(st.default_marker.as_str());
                s.append("  Default: ");
                let vt = v.to_text();
                s.append(vt.as_str());
                s.append("\n");
            },
            None => {},
        }
        proof {
            assert(s@ =~= seg_name + seg_meta + seg_title + seg_descr + seg_default);
        }
        match &self.example {
            Some(v) => {
                s.append(st.example_marker.as_str());
                s.append(" Example: export ");
                s.append(self.name.as_str());
                s.append("=");
                let vt = v.to_text();
                s.append(vt.as_str());
                s.append("\n");
            },
            None => {},
        }
        proof {
            assert(s@ =~= seg_name + seg_meta + seg_title + seg_descr + seg_default + seg_example);
        }
        match &self.validator {
            Some(vl) => match vl.description() {
                Some(ds) => {
                    s.append(st.validator_marker.as_str());
                    s.append(" ");
                    s.append(ds.as_str());
                    s.append("\n");
                },
                None => {},
            },
            None => {},
        }
        proof {
            assert(s@ =~= seg_name + seg_meta + seg_title + seg_descr + seg_default + seg_example
                + seg_validator);
            assert(s@ =~= doc_text(*self, *st));
        }
        s
    }

    /// Renders the descriptor's documentation with the library's standard
    /// markers: exactly the text of [`doc_text`] under markers each of which
    /// is the line's symbol or the empty fallback, as the terminal decides.
    /// Pure formatting, no resolution.
    pub fn doc(&self) -> (r: String)
        ensures
            exists|st: DocStyle| #[trigger] console_markers(st) && r@ == doc_text(*self, st),
    {
        let st = DocStyle {
            name_marker: emoji_marker("🔹", ""),
            meta_marker: emoji_marker("📖", ""),
            default_marker: emoji_marker("🛠️", ""),
            example_marker: emoji_marker("🧪", ""),
            validator_marker: emoji_marker("✅", ""),
        };
        let r = self.doc_styled(&st);
        proof {
            assert(console_markers(st) && r@ == doc_text(*self, st));
        }
        r
    }
}

} // verus!
