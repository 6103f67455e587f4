//! The runtime builder: an ordered, append-only argument-token
//! accumulator with a fixed program name, a display renderer, and the
//! consuming conversion into a process-invocation descriptor.

use vstd::prelude::*;

use crate::schema::{CommandSchema, FieldKind, FieldSpec, FieldSpecView};

verus! {

/// Mathematical image of a [`Builder`] (and of a
/// [`ProcessInvocationHandle`]): the program name and the ordered
/// argument tokens.
pub struct BuilderView {
    pub program: Seq<char>,
    pub tokens: Seq<Seq<char>>,
}

/// One invocation in the making: the program name, fixed at
/// construction, and the argument tokens in the order the setters
/// appended them.
pub struct Builder {
    program: String,
    tokens: Vec<String>,
}

impl View for Builder {
    type V = BuilderView;

    closed spec fn view(&self) -> BuilderView {
        BuilderView { program: self.program@, tokens: self.tokens.deep_view() }
    }
}

/// The option marker a field spec emits: its prefix followed by its
/// option name.
pub open spec fn option_marker(s: FieldSpecView) -> Seq<char> {
    s.prefix + s.option_name
}

/// The tokens one setter call appends for a field: only the marker for
/// a flag, the marker then the value for a valued option, the bare
/// value for a positional argument.
pub open spec fn emission(s: FieldSpecView, value: Option<Seq<char>>) -> Seq<Seq<char>> {
    match s.kind {
        FieldKind::Flag => seq![option_marker(s)],
        FieldKind::Valued => seq![option_marker(s), value->0],
        FieldKind::Positional => seq![value->0],
    }
}

/// The display form of an invocation: the program name followed by each
/// token, all separated by single spaces, with nothing extra leading or
/// trailing.
pub open spec fn render_spec(program: Seq<char>, tokens: Seq<Seq<char>>) -> Seq<char>
    decreases tokens.len(),
{
    if tokens.len() == 0 {
        program
    } else {
        render_spec(program, tokens.drop_last()) + " "@ + tokens.last()
    }
}

/// How often a token occurs in a token sequence.
pub open spec fn occurrences(tokens: Seq<Seq<char>>, tok: Seq<char>) -> nat
    decreases tokens.len(),
{
    if tokens.len() == 0 {
        0nat
    } else {
        occurrences(tokens.drop_last(), tok) + (if tokens.last() == tok {
            1nat
        } else {
            0nat
        })
    }
}

/// Appending emitted tokens preserves every token already in the
/// sequence, at its place, and puts the emission after them in its own
/// order: setter calls append, never reorder.
pub proof fn lemma_emission_preserves_order(t: Seq<Seq<char>>, e: Seq<Seq<char>>)
    ensures
        (t + e).len() == t.len() + e.len(),
        forall|i: int| 0 <= i < t.len() ==> (t + e)[i] == t[i],
        forall|i: int| 0 <= i < e.len() ==> (t + e)[t.len() + i] == e[i],
{
}

/// A flag emission adds exactly one occurrence of the flag's option
/// marker, whatever the sequence already holds.
pub proof fn lemma_flag_emission_adds_occurrence(t: Seq<Seq<char>>, s: FieldSpecView)
    requires
        s.kind == FieldKind::Flag,
    ensures
        occurrences(t + emission(s, None), option_marker(s)) == occurrences(t, option_marker(s))
            + 1,
{
    assert((t + emission(s, None)).drop_last() =~= t);
}

/// Calling the same flag setter twice yields two occurrences of its
/// option marker: emissions are never deduplicated.
pub proof fn lemma_repeated_flag_not_deduplicated(t: Seq<Seq<char>>, s: FieldSpecView)
    requires
        s.kind == FieldKind::Flag,
    ensures
        occurrences(t + emission(s, None) + emission(s, None), option_marker(s)) == occurrences(
            t,
            option_marker(s),
        ) + 2,
{
    lemma_flag_emission_adds_occurrence(t, s);
    lemma_flag_emission_adds_occurrence(t + emission(s, None), s);
}

/// The tokens a keep-mask lets through, in their original order.
pub open spec fn mask_filter(s: Seq<Seq<char>>, keep: Seq<bool>) -> Seq<Seq<char>>
    decreases s.len(),
{
    if s.len() == 0 {
        Seq::empty()
    } else {
        mask_filter(s.drop_last(), keep.drop_last()) + (if keep.len() > 0 && keep.last() {
            seq![s.last()]
        } else {
            Seq::<Seq<char>>::empty()
        })
    }
}

/// The descriptor handed to the external process-execution facility:
/// the program name and the complete token sequence, exactly as the
/// builder accumulated them.
pub struct ProcessInvocationHandle {
    program: String,
    tokens: Vec<String>,
}

impl View for ProcessInvocationHandle {
    type V = BuilderView;

    closed spec fn view(&self) -> BuilderView {
        BuilderView { program: self.program@, tokens: self.tokens.deep_view() }
    }
}

impl ProcessInvocationHandle {
    /// The program to run.
    pub fn program_name(&self) -> (r: &String)
        ensures
            r@ == self@.program,
    {
        &self.program
    }

    /// The argument tokens, in append order.
    pub fn tokens(&self) -> (r: &Vec<String>)
        ensures
            r.deep_view() == self@.tokens,
    {
        &self.tokens
    }

    /// Dissolve the descriptor into its program name and tokens.
    pub fn into_parts(self) -> (r: (String, Vec<String>))
        ensures
            r.0@ == self@.program,
            r.1.deep_view() == self@.tokens,
    {
        (self.program, self.tokens)
    }
}

impl Builder {
    /// A fresh builder for a parsed schema: the program name fixed, no
    /// tokens yet.
    pub fn new(schema: &CommandSchema) -> (b: Builder)
        ensures
            b@.program == schema@.program_name,
            b@.tokens == Seq::<Seq<char>>::empty(),
    {
        let b = Builder { program: schema.program_name.clone(), tokens: Vec::new() };
        proof {
            assert(b@.tokens =~= Seq::<Seq<char>>::empty());
        }
        b
    }

    /// The program this builder will invoke.
    pub fn program_name(&self) -> (r: &String)
        ensures
            r@ == self@.program,
    {
        &self.program
    }

    /// The argument tokens accumulated so far, in append order.
    pub fn tokens(&self) -> (r: &Vec<String>)
        ensures
            r.deep_view() == self@.tokens,
    {
        &self.tokens
    }

    /// A flag setter call: appends the field's option marker and
    /// nothing else.
    pub fn set_flag(&mut self, spec: &FieldSpec)
        requires
            spec@.kind == FieldKind::Flag,
        ensures
            final(self)@.program == old(self)@.program,
            final(self)@.tokens == old(self)@.tokens + emission(spec@, None),
    {
        let marker = spec.prefix.clone().concat(spec.option_name.as_str());
        self.tokens.push(marker);
        proof {
            assert(self@.tokens =~= old(self)@.tokens + emission(spec@, None));
        }
    }

    /// A valued or positional setter call: appends the option marker
    /// followed by the value, or the bare value alone.
    pub fn set_value(&mut self, spec: &FieldSpec, value: &str)
        requires
            spec@.kind != FieldKind::Flag,
        ensures
            final(self)@.program == old(self)@.program,
            final(self)@.tokens == old(self)@.tokens + emission(spec@, Some(value@)),
    {
        match spec.kind {
            FieldKind::Flag => {
            },
            FieldKind::Valued => {
                let marker = spec.prefix.clone().concat(spec.option_name.as_str());
                self.tokens.push(marker);
                self.tokens.push(String::from_str(value));
            },
            FieldKind::Positional => {
                self.tokens.push(String::from_str(value));
            },
        }
        proof {
            assert(self@.tokens =~= old(self)@.tokens + emission(spec@, Some(value@)));
        }
    }

    /// Append the arguments of a vector, in their order.
    pub fn args(&mut self, args: &Vec<String>)
        ensures
            final(self)@.program == old(self)@.program,
            final(self)@.tokens == old(self)@.tokens + args.deep_view(),
    {
        let mut i: usize = 0;
        while i < args.len()
            invariant
                i <= args.len(),
                self@.program == old(self)@.program,
                self@.tokens == old(self)@.tokens + args.deep_view().take(i as int),
            decreases args.len() - i,
        {
            let ghost before = self@.tokens;
            self.tokens.push(args[i].clone());
            proof {
                assert(self@.tokens =~= before + seq![args.deep_view()[i as int]]);
                assert(self@.tokens =~= old(self)@.tokens + args.deep_view().take(i + 1));
            }
            i += 1;
        }
        proof {
            assert(args.deep_view().take(args@.len() as int) =~= args.deep_view());
        }
    }

    /// Append each argument the predicate accepts, in order.
    pub fn args_if<F: Fn(&String) -> bool>(&mut self, args: &Vec<String>, predicate: F)
        requires
            forall|i: int| 0 <= i < args@.len() ==> call_requires(predicate, (&args@[i],)),
        ensures
            final(self)@.program == old(self)@.program,
            exists|keep: Seq<bool>|
                {
                    &&& keep.len() == args@.len()
                    &&& (forall|i: int|
                        0 <= i < args@.len() ==> call_ensures(predicate, (&args@[i],), keep[i]))
                    &&& final(self)@.tokens == old(self)@.tokens + mask_filter(
                        args.deep_view(),
                        keep,
                    )
                },
    {
        let ghost mut keep: Seq<bool> = Seq::empty();
        let mut i: usize = 0;
        while i < args.len()
            invariant
                i <= args.len(),
                keep.len() == i,
                forall|j: int| 0 <= j < args@.len() ==> call_requires(predicate, (&args@[j],)),
                forall|j: int| 0 <= j < i ==> call_ensures(predicate, (&args@[j],), keep[j]),
                self@.program == old(self)@.program,
                self@.tokens == old(self)@.tokens + mask_filter(args.deep_view().take(i as int), keep),
            decreases args.len() - i,
        {
            let ghost before = self@.tokens;
            let b = predicate(&args[i]);
            if b {
                self.tokens.push(args[i].clone());
                proof {
                    assert(self@.tokens =~= before + seq![args.deep_view()[i as int]]);
                }
            }
            proof {
                let prev = keep;
                keep = keep.push(b);
                assert(args.deep_view().take(i + 1).drop_last() =~= args.deep_view().take(i as int));
                assert(keep.drop_last() =~= prev);
                assert(mask_filter(args.deep_view().take(i + 1), keep) == mask_filter(
                    args.deep_view().take(i as int),
                    prev,
                ) + (if b {
                    seq![args.deep_view()[i as int]]
                } else {
                    Seq::<Seq<char>>::empty()
                }));
                assert(self@.tokens =~= old(self)@.tokens + mask_filter(
                    args.deep_view().take(i + 1),
                    keep,
                ));
            }
            i += 1;
        }
        proof {
            assert(args.deep_view().take(args@.len() as int) =~= args.deep_view());
        }
    }

    /// The display form of the invocation so far: program name and
    /// tokens, single-space separated.  For debugging; nothing is
    /// quoted or escaped.
    pub fn render(&self) -> (r: String)
        ensures
            r@ == render_spec(self@.program, self@.tokens),
    {
        let mut s = self.program.clone();
        let mut i: usize = 0;
        while i < self.tokens.len()
            invariant
                i <= self.tokens.len(),
                s@ == render_spec(self@.program, self@.tokens.take(i as int)),
            decreases self.tokens.len() - i,
        {
            s.append(" ");
            s.append(self.tokens[i].as_str());
            proof {
                assert(self@.tokens.take(i + 1).drop_last() =~= self@.tokens.take(i as int));
            }
            i += 1;
        }
        proof {
            assert(self@.tokens.take(self.tokens@.len() as int) =~= self@.tokens);
        }
        s
    }

    /// Consume the builder into the descriptor for the external
    /// process-execution facility: the program name and the complete
    /// token sequence are transferred unchanged, and the builder is
    /// gone.
    pub fn raw_handle(self) -> (h: ProcessInvocationHandle)
        ensures
            h@.program == self@.program,
            h@.tokens == self@.tokens,
    {
        ProcessInvocationHandle { program: self.program, tokens: self.tokens }
    }
}

/// Anything that accumulates command arguments: add them one by one or
/// conditionally, and project the whole invocation to display text.
pub trait Command: Sized {
    /// The program the command will invoke.
    spec fn program_view(&self) -> Seq<char>;

    /// The argument tokens accumulated so far, in append order.
    spec fn tokens_view(&self) -> Seq<Seq<char>>;

    /// Add an argument.
    fn arg(&mut self, arg: &str)
        ensures
            final(self).program_view() == old(self).program_view(),
            final(self).tokens_view() == old(self).tokens_view().push(arg@),
    ;

    /// Add an argument only if the predicate is true.
    fn arg_if(&mut self, arg: &str, predicate: bool)
        ensures
            final(self).program_view() == old(self).program_view(),
            final(self).tokens_view() == (if predicate {
                old(self).tokens_view().push(arg@)
            } else {
                old(self).tokens_view()
            }),
    ;

    /// Convert the command with its arguments to a display string.
    fn stringify(&self) -> (r: String)
        ensures
            r@ == render_spec(self.program_view(), self.tokens_view()),
    ;
}

impl Command for Builder {
    open spec fn program_view(&self) -> Seq<char> {
        self@.program
    }

    open spec fn tokens_view(&self) -> Seq<Seq<char>> {
        self@.tokens
    }

    fn arg(&mut self, arg: &str) {
        self.tokens.push(String::from_str(arg));
        proof {
            assert(self@.tokens =~= old(self)@.tokens.push(arg@));
        }
    }

    fn arg_if(&mut self, arg: &str, predicate: bool) {
        if predicate {
            self.arg(arg);
        }
    }

    fn stringify(&self) -> (r: String) {
        self.render()
    }
}

} // verus!
