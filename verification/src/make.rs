//! Wrapper for GNU make: a static table of resolved field specs and
//! the typed setters that drive the builder through it.

use vstd::prelude::*;

use crate::builder::{Builder, BuilderView, ProcessInvocationHandle, render_spec};
use crate::schema::{CommandSchema, FieldKind, FieldSpec, FieldSpecView};

verus! {

/// The resolved argument declarations of `make`, in declaration order.
pub open spec fn make_fields() -> Seq<FieldSpecView> {
    seq![
        FieldSpecView {
            field_name: "directory"@,
            kind: FieldKind::Valued,
            option_name: "C"@,
            prefix: "-"@,
        },
        FieldSpecView {
            field_name: "env_overwrites"@,
            kind: FieldKind::Flag,
            option_name: "e"@,
            prefix: "-"@,
        },
        FieldSpecView {
            field_name: "eval"@,
            kind: FieldKind::Valued,
            option_name: "eval"@,
            prefix: "--"@,
        },
        FieldSpecView {
            field_name: "file"@,
            kind: FieldKind::Valued,
            option_name: "file"@,
            prefix: "--"@,
        },
        FieldSpecView {
            field_name: "ignore_errors"@,
            kind: FieldKind::Flag,
            option_name: "i"@,
            prefix: "-"@,
        },
        FieldSpecView {
            field_name: "include_dir"@,
            kind: FieldKind::Valued,
            option_name: "I"@,
            prefix: "-"@,
        },
        FieldSpecView {
            field_name: "target"@,
            kind: FieldKind::Positional,
            option_name: "target"@,
            prefix: "--"@,
        },
    ]
}

/// The parsed schema of `make`: its program name and its static field
/// table.
pub fn make_schema() -> (s: CommandSchema)
    ensures
        s@.program_name == "make"@,
        s@.fields == make_fields(),
{
    let mut fields: Vec<FieldSpec> = Vec::new();
    fields.push(
        FieldSpec {
            field_name: String::from_str("directory"),
            kind: FieldKind::Valued,
            option_name: String::from_str("C"),
            prefix: String::from_str("-"),
        },
    );
    fields.push(
        FieldSpec {
            field_name: String::from_str("env_overwrites"),
            kind: FieldKind::Flag,
            option_name: String::from_str("e"),
            prefix: String::from_str("-"),
        },
    );
    fields.push(
        FieldSpec {
            field_name: String::from_str("eval"),
            kind: FieldKind::Valued,
            option_name: String::from_str("eval"),
            prefix: String::from_str("--"),
        },
    );
    fields.push(
        FieldSpec {
            field_name: String::from_str("file"),
            kind: FieldKind::Valued,
            option_name: String::from_str("file"),
            prefix: String::from_str("--"),
        },
    );
    fields.push(
        FieldSpec {
            field_name: String::from_str("ignore_errors"),
            kind: FieldKind::Flag,
            option_name: String::from_str("i"),
            prefix: String::from_str("-"),
        },
    );
    fields.push(
        FieldSpec {
            field_name: String::from_str("include_dir"),
            kind: FieldKind::Valued,
            option_name: String::from_str("I"),
            prefix: String::from_str("-"),
        },
    );
    fields.push(
        FieldSpec {
            field_name: String::from_str("target"),
            kind: FieldKind::Positional,
            option_name: String::from_str("target"),
            prefix: String::from_str("--"),
        },
    );
    let s = CommandSchema { program_name: String::from_str("make"), fields: fields };
    proof {
        assert(s@.fields =~= make_fields());
    }
    s
}

/// A `make` invocation in the making.
pub struct Make {
    builder: Builder,
}

impl View for Make {
    type V = BuilderView;

    closed spec fn view(&self) -> BuilderView {
        self.builder@
    }
}

impl Make {
    /// A fresh `make` invocation with no arguments.
    pub fn new() -> (m: Make)
        ensures
            m@.program == "make"@,
            m@.tokens == Seq::<Seq<char>>::empty(),
    {
        Make { builder: Builder::new(&make_schema()) }
    }

    /// Change to DIRECTORY before doing anything.
    pub fn directory(&mut self, val: &str)
        ensures
            final(self)@.program == old(self)@.program,
            final(self)@.tokens == old(self)@.tokens + seq!["-C"@, val@],
    {
        let fs = FieldSpec {
            field_name: String::from_str("directory"),
            kind: FieldKind::Valued,
            option_name: String::from_str("C"),
            prefix: String::from_str("-"),
        };
        self.builder.set_value(&fs, val);
        proof {
            reveal_strlit("-");
            reveal_strlit("C");
            reveal_strlit("-C");
            assert("-"@ + "C"@ =~= "-C"@);
            assert(self@.tokens =~= old(self)@.tokens + seq!["-C"@, val@]);
        }
    }

    /// Environment variables override makefiles.
    pub fn env_overwrites(&mut self)
        ensures
            final(self)@.program == old(self)@.program,
            final(self)@.tokens == old(self)@.tokens + seq!["-e"@],
    {
        let fs = FieldSpec {
            field_name: String::from_str("env_overwrites"),
            kind: FieldKind::Flag,
            option_name: String::from_str("e"),
            prefix: String::from_str("-"),
        };
        self.builder.set_flag(&fs);
        proof {
            reveal_strlit("-");
            reveal_strlit("e");
            reveal_strlit("-e");
            assert("-"@ + "e"@ =~= "-e"@);
            assert(self@.tokens =~= old(self)@.tokens + seq!["-e"@]);
        }
    }

    /// Evaluate STRING as a makefile statement.
    pub fn eval(&mut self, val: &str)
        ensures
            final(self)@.program == old(self)@.program,
            final(self)@.tokens == old(self)@.tokens + seq!["--eval"@, val@],
    {
        let fs = FieldSpec {
            field_name: String::from_str("eval"),
            kind: FieldKind::Valued,
            option_name: String::from_str("eval"),
            prefix: String::from_str("--"),
        };
        self.builder.set_value(&fs, val);
        proof {
            reveal_strlit("--");
            reveal_strlit("eval");
            reveal_strlit("--eval");
            assert("--"@ + "eval"@ =~= "--eval"@);
            assert(self@.tokens =~= old(self)@.tokens + seq!["--eval"@, val@]);
        }
    }

    /// Read FILE as a makefile.
    pub fn file(&mut self, val: &str)
        ensures
            final(self)@.program == old(self)@.program,
            final(self)@.tokens == old(self)@.tokens + seq!["--file"@, val@],
    {
        let fs = FieldSpec {
            field_name: String::from_str("file"),
            kind: FieldKind::Valued,
            option_name: String::from_str("file"),
            prefix: String::from_str("--"),
        };
        self.builder.set_value(&fs, val);
        proof {
            reveal_strlit("--");
            reveal_strlit("file");
            reveal_strlit("--file");
            assert("--"@ + "file"@ =~= "--file"@);
            assert(self@.tokens =~= old(self)@.tokens + seq!["--file"@, val@]);
        }
    }

    /// Ignore errors from recipes.
    pub fn ignore_errors(&mut self)
        ensures
            final(self)@.program == old(self)@.program,
            final(self)@.tokens == old(self)@.tokens + seq!["-i"@],
    {
        let fs = FieldSpec {
            field_name: String::from_str("ignore_errors"),
            kind: FieldKind::Flag,
            option_name: String::from_str("i"),
            prefix: String::from_str("-"),
        };
        self.builder.set_flag(&fs);
        proof {
            reveal_strlit("-");
            reveal_strlit("i");
            reveal_strlit("-i");
            assert("-"@ + "i"@ =~= "-i"@);
            assert(self@.tokens =~= old(self)@.tokens + seq!["-i"@]);
        }
    }

    /// Search DIRECTORY for included makefiles.
    pub fn include_dir(&mut self, val: &str)
        ensures
            final(self)@.program == old(self)@.program,
            final(self)@.tokens == old(self)@.tokens + seq!["-I"@, val@],
    {
        let fs = FieldSpec {
            field_name: String::from_str("include_dir"),
            kind: FieldKind::Valued,
            option_name: String::from_str("I"),
            prefix: String::from_str("-"),
        };
        self.builder.set_value(&fs, val);
        proof {
            reveal_strlit("-");
            reveal_strlit("I");
            reveal_strlit("-I");
            assert("-"@ + "I"@ =~= "-I"@);
            assert(self@.tokens =~= old(self)@.tokens + seq!["-I"@, val@]);
        }
    }

    /// Specify makefile target
    pub fn target(&mut self, val: &str)
        ensures
            final(self)@.program == old(self)@.program,
            final(self)@.tokens == old(self)@.tokens + seq![val@],
    {
        let fs = FieldSpec {
            field_name: String::from_str("target"),
            kind: FieldKind::Positional,
            option_name: String::from_str("target"),
            prefix: String::from_str("--"),
        };
        self.builder.set_value(&fs, val);
        proof {
            assert(self@.tokens =~= old(self)@.tokens + seq![val@]);
        }
    }

    /// The display form of the invocation so far.
    pub fn string_repr(&self) -> (r: String)
        ensures
            r@ == render_spec(self@.program, self@.tokens),
    {
        self.builder.render()
    }

    /// Consume the wrapper into the process-invocation descriptor.
    pub fn raw_handle(self) -> (h: ProcessInvocationHandle)
        ensures
            h@.program == self@.program,
            h@.tokens == self@.tokens,
    {
        self.builder.raw_handle()
    }
}

} // verus!
