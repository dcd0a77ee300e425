use vstd::prelude::*;
use crate::json::is_text;

verus! {

/// The optional groups of operations and types that a decoder accepts.
#[derive(Clone, Copy, Debug, PartialEq, Eq, Structural)]
pub struct Capabilities {
    pub float: bool,
    pub memory: bool,
    pub speculate: bool,
    pub ssa: bool,
}

impl Capabilities {
    /// Every optional group enabled.
    pub fn all() -> (r: Capabilities)
        ensures
            r.float && r.memory && r.speculate && r.ssa,
    {
        Capabilities { float: true, memory: true, speculate: true, ssa: true }
    }

    /// The core vocabulary alone.
    pub fn base() -> (r: Capabilities)
        ensures
            !r.float && !r.memory && !r.speculate && !r.ssa,
    {
        Capabilities { float: false, memory: false, speculate: false, ssa: false }
    }
}

/// The operation that defines a constant.
#[derive(Clone, Copy, Debug, PartialEq, Eq, Hash, Structural)]
pub enum ConstOps {
    Const,
}

impl ConstOps {
    /// The operation's spelling in the text encoding.
    pub open spec fn spelling(self) -> Seq<char> {
        match self {
            ConstOps::Const => "const"@,
        }
    }

    /// Whether the capabilities admit this operation.
    pub open spec fn enabled(self, caps: Capabilities) -> bool {
        match self {
            ConstOps::Const => true,
        }
    }

    /// The operation that `s` spells, if the capabilities admit it.
    pub open spec fn accepted(s: Seq<char>, caps: Capabilities) -> Option<ConstOps> {
        if exists|op: ConstOps| op.spelling() == s && op.enabled(caps) {
            Some(choose|op: ConstOps| op.spelling() == s && op.enabled(caps))
        } else {
            None
        }
    }

    /// No two operations share a spelling.
    pub proof fn lemma_spelling_injective(a: ConstOps, b: ConstOps)
        ensures
            a.spelling() == b.spelling() ==> a == b,
    {
    }

    /// An enabled operation is accepted under its own spelling.
    pub proof fn lemma_accepted_spelling(op: ConstOps, caps: Capabilities)
        requires
            op.enabled(caps),
        ensures
            ConstOps::accepted(op.spelling(), caps) == Some(op),
    {
        assert(op.spelling() == op.spelling() && op.enabled(caps));
        let c = choose|c: ConstOps| c.spelling() == op.spelling() && c.enabled(caps);
        ConstOps::lemma_spelling_injective(c, op);
    }

    /// The operation's spelling in the text encoding.
    pub fn text(&self) -> (r: &'static str)
        ensures
            r@ == self.spelling(),
    {
        match self {
            ConstOps::Const => "const",
        }
    }

    /// Whether the capabilities admit this operation.
    pub fn is_enabled(&self, caps: Capabilities) -> (r: bool)
        ensures
            r == self.enabled(caps),
    {
        match self {
            ConstOps::Const => true,
        }
    }

    /// The operation spelled `s`, whatever the capabilities.
    fn lookup(s: &String) -> (r: Option<ConstOps>)
        ensures
            match r {
                Some(op) => op.spelling() == s@,
                None => forall|op: ConstOps| op.spelling() != s@,
            },
    {
        let r = if is_text(s, "const") {
            Some(ConstOps::Const)
        } else {
            None
        };
        proof {
            if r is None {
                assert forall|op: ConstOps| op.spelling() != s@ by {
                    match op {
                    ConstOps::Const => {},
                    }
                }
            }
        }
        r
    }

    /// The operation spelled `s`, if the capabilities admit it.
    pub fn from_text(s: &String, caps: Capabilities) -> (r: Option<ConstOps>)
        ensures
            r == ConstOps::accepted(s@, caps),
    {
        let found = ConstOps::lookup(s);
        match found {
            Some(op) => {
                proof {
                    assert forall|other: ConstOps| other.spelling() == s@ implies other == op by {
                        ConstOps::lemma_spelling_injective(other, op);
                    }
                }
                if op.is_enabled(caps) {
                    Some(op)
                } else {
                    None
                }
            },
            None => None,
        }
    }
}

/// Operations that produce no value.
#[derive(Clone, Copy, Debug, PartialEq, Eq, Hash, Structural)]
pub enum EffectOps {
    Jump,
    Branch,
    Call,
    Return,
    Print,
    Nop,
    Store,
    Free,
    Speculate,
    Commit,
    Guard,
}

impl EffectOps {
    /// The operation's spelling in the text encoding.
    pub open spec fn spelling(self) -> Seq<char> {
        match self {
            EffectOps::Jump => "jmp"@,
            EffectOps::Branch => "br"@,
            EffectOps::Call => "call"@,
            EffectOps::Return => "ret"@,
            EffectOps::Print => "print"@,
            EffectOps::Nop => "nop"@,
            EffectOps::Store => "store"@,
            EffectOps::Free => "free"@,
            EffectOps::Speculate => "speculate"@,
            EffectOps::Commit => "commit"@,
            EffectOps::Guard => "guard"@,
        }
    }

    /// Whether the capabilities admit this operation.
    pub open spec fn enabled(self, caps: Capabilities) -> bool {
        match self {
            EffectOps::Jump => true,
            EffectOps::Branch => true,
            EffectOps::Call => true,
            EffectOps::Return => true,
            EffectOps::Print => true,
            EffectOps::Nop => true,
            EffectOps::Store => caps.memory,
            EffectOps::Free => caps.memory,
            EffectOps::Speculate => caps.speculate,
            EffectOps::Commit => caps.speculate,
            EffectOps::Guard => caps.speculate,
        }
    }

    /// The operation that `s` spells, if the capabilities admit it.
    pub open spec fn accepted(s: Seq<char>, caps: Capabilities) -> Option<EffectOps> {
        if exists|op: EffectOps| op.spelling() == s && op.enabled(caps) {
            Some(choose|op: EffectOps| op.spelling() == s && op.enabled(caps))
        } else {
            None
        }
    }

    /// No two operations share a spelling.
    pub proof fn lemma_spelling_injective(a: EffectOps, b: EffectOps)
        ensures
            a.spelling() == b.spelling() ==> a == b,
    {
        reveal_strlit("jmp");
        reveal_strlit("br");
        reveal_strlit("call");
        reveal_strlit("ret");
        reveal_strlit("print");
        reveal_strlit("nop");
        reveal_strlit("store");
        reveal_strlit("free");
        reveal_strlit("speculate");
        reveal_strlit("commit");
        reveal_strlit("guard");
        if a.spelling() == b.spelling() {
            assert(a.spelling().len() == b.spelling().len());
            if a.spelling().len() > 0 {
                assert(a.spelling()[0] == b.spelling()[0]);
            }
            if a.spelling().len() > 1 {
                assert(a.spelling()[1] == b.spelling()[1]);
            }
            if a.spelling().len() > 2 {
                assert(a.spelling()[2] == b.spelling()[2]);
            }
            if a.spelling().len() > 3 {
                assert(a.spelling()[3] == b.spelling()[3]);
            }
            if a.spelling().len() > 4 {
                assert(a.spelling()[4] == b.spelling()[4]);
            }
            if a.spelling().len() > 5 {
                assert(a.spelling()[5] == b.spelling()[5]);
            }
            if a.spelling().len() > 6 {
                assert(a.spelling()[6] == b.spelling()[6]);
            }
            if a.spelling().len() > 7 {
                assert(a.spelling()[7] == b.spelling()[7]);
            }
            if a.spelling().len() > 8 {
                assert(a.spelling()[8] == b.spelling()[8]);
            }
            match a {
                EffectOps::Jump => { assert(a.spelling() =~= "jmp"@); }
                EffectOps::Branch => { assert(a.spelling() =~= "br"@); }
                EffectOps::Call => { assert(a.spelling() =~= "call"@); }
                EffectOps::Return => { assert(a.spelling() =~= "ret"@); }
                EffectOps::Print => { assert(a.spelling() =~= "print"@); }
                EffectOps::Nop => { assert(a.spelling() =~= "nop"@); }
                EffectOps::Store => { assert(a.spelling() =~= "store"@); }
                EffectOps::Free => { assert(a.spelling() =~= "free"@); }
                EffectOps::Speculate => { assert(a.spelling() =~= "speculate"@); }
                EffectOps::Commit => { assert(a.spelling() =~= "commit"@); }
                EffectOps::Guard => { assert(a.spelling() =~= "guard"@); }
            }
        }
    }

    /// An enabled operation is accepted under its own spelling.
    pub proof fn lemma_accepted_spelling(op: EffectOps, caps: Capabilities)
        requires
            op.enabled(caps),
        ensures
            EffectOps::accepted(op.spelling(), caps) == Some(op),
    {
        assert(op.spelling() == op.spelling() && op.enabled(caps));
        let c = choose|c: EffectOps| c.spelling() == op.spelling() && c.enabled(caps);
        EffectOps::lemma_spelling_injective(c, op);
    }

    /// No such operation is spelled like the constant operation.
    pub proof fn lemma_not_constant(op: EffectOps, caps: Capabilities)
        ensures
            ConstOps::accepted(op.spelling(), caps) is None,
    {
        reveal_strlit("const");
        reveal_strlit("jmp");
        reveal_strlit("br");
        reveal_strlit("call");
        reveal_strlit("ret");
        reveal_strlit("print");
        reveal_strlit("nop");
        reveal_strlit("store");
        reveal_strlit("free");
        reveal_strlit("speculate");
        reveal_strlit("commit");
        reveal_strlit("guard");
        if op.spelling() == "const"@ {
            assert(op.spelling().len() == 5);
            assert(op.spelling()[0] == 'c');
            assert(op.spelling()[1] == 'o');
            match op {
                EffectOps::Jump => {
                    assert(op.spelling() =~= "jmp"@);
                },
                EffectOps::Branch => {
                    assert(op.spelling() =~= "br"@);
                },
                EffectOps::Call => {
                    assert(op.spelling() =~= "call"@);
                },
                EffectOps::Return => {
                    assert(op.spelling() =~= "ret"@);
                },
                EffectOps::Print => {
                    assert(op.spelling() =~= "print"@);
                },
                EffectOps::Nop => {
                    assert(op.spelling() =~= "nop"@);
                },
                EffectOps::Store => {
                    assert(op.spelling() =~= "store"@);
                },
                EffectOps::Free => {
                    assert(op.spelling() =~= "free"@);
                },
                EffectOps::Speculate => {
                    assert(op.spelling() =~= "speculate"@);
                },
                EffectOps::Commit => {
                    assert(op.spelling() =~= "commit"@);
                },
                EffectOps::Guard => {
                    assert(op.spelling() =~= "guard"@);
                },
            }
        }
        assert forall|c: ConstOps| c.spelling() != op.spelling() by {
            match c {
                ConstOps::Const => {},
            }
        }
    }

    /// The operation's spelling in the text encoding.
    pub fn text(&self) -> (r: &'static str)
        ensures
            r@ == self.spelling(),
    {
        match self {
            EffectOps::Jump => "jmp",
            EffectOps::Branch => "br",
            EffectOps::Call => "call",
            EffectOps::Return => "ret",
            EffectOps::Print => "print",
            EffectOps::Nop => "nop",
            EffectOps::Store => "store",
            EffectOps::Free => "free",
            EffectOps::Speculate => "speculate",
            EffectOps::Commit => "commit",
            EffectOps::Guard => "guard",
        }
    }

    /// Whether the capabilities admit this operation.
    pub fn is_enabled(&self, caps: Capabilities) -> (r: bool)
        ensures
            r == self.enabled(caps),
    {
        match self {
            EffectOps::Jump => true,
            EffectOps::Branch => true,
            EffectOps::Call => true,
            EffectOps::Return => true,
            EffectOps::Print => true,
            EffectOps::Nop => true,
            EffectOps::Store => caps.memory,
            EffectOps::Free => caps.memory,
            EffectOps::Speculate => caps.speculate,
            EffectOps::Commit => caps.speculate,
            EffectOps::Guard => caps.speculate,
        }
    }

    /// The operation spelled `s`, whatever the capabilities.
    fn lookup(s: &String) -> (r: Option<EffectOps>)
        ensures
            match r {
                Some(op) => op.spelling() == s@,
                None => forall|op: EffectOps| op.spelling() != s@,
            },
    {
        let r = if is_text(s, "jmp") {
            Some(EffectOps::Jump)
        } else if is_text(s, "br") {
            Some(EffectOps::Branch)
        } else if is_text(s, "call") {
            Some(EffectOps::Call)
        } else if is_text(s, "ret") {
            Some(EffectOps::Return)
        } else if is_text(s, "print") {
            Some(EffectOps::Print)
        } else if is_text(s, "nop") {
            Some(EffectOps::Nop)
        } else if is_text(s, "store") {
            Some(EffectOps::Store)
        } else if is_text(s, "free") {
            Some(EffectOps::Free)
        } else if is_text(s, "speculate") {
            Some(EffectOps::Speculate)
        } else if is_text(s, "commit") {
            Some(EffectOps::Commit)
        } else if is_text(s, "guard") {
            Some(EffectOps::Guard)
        } else {
            None
        };
        proof {
            if r is None {
                assert forall|op: EffectOps| op.spelling() != s@ by {
                    match op {
                    EffectOps::Jump => {},
                    EffectOps::Branch => {},
                    EffectOps::Call => {},
                    EffectOps::Return => {},
                    EffectOps::Print => {},
                    EffectOps::Nop => {},
                    EffectOps::Store => {},
                    EffectOps::Free => {},
                    EffectOps::Speculate => {},
                    EffectOps::Commit => {},
                    EffectOps::Guard => {},
                    }
                }
            }
        }
        r
    }

    /// The operation spelled `s`, if the capabilities admit it.
    pub fn from_text(s: &String, caps: Capabilities) -> (r: Option<EffectOps>)
        ensures
            r == EffectOps::accepted(s@, caps),
    {
        let found = EffectOps::lookup(s);
        match found {
            Some(op) => {
                proof {
                    assert forall|other: EffectOps| other.spelling() == s@ implies other == op by {
                        EffectOps::lemma_spelling_injective(other, op);
                    }
                }
                if op.is_enabled(caps) {
                    Some(op)
                } else {
                    None
                }
            },
            None => None,
        }
    }
}

/// Operations that produce a value.
#[derive(Clone, Copy, Debug, PartialEq, Eq, Hash, Structural)]
pub enum ValueOps {
    Add,
    Sub,
    Mul,
    Div,
    Eq,
    Lt,
    Gt,
    Le,
    Ge,
    Not,
    And,
    Or,
    Call,
    Id,
    Phi,
    Fadd,
    Fsub,
    Fmul,
    Fdiv,
    Feq,
    Flt,
    Fgt,
    Fle,
    Fge,
    Alloc,
    Load,
    PtrAdd,
}

impl ValueOps {
    /// The operation's spelling in the text encoding.
    pub open spec fn spelling(self) -> Seq<char> {
        match self {
            ValueOps::Add => "add"@,
            ValueOps::Sub => "sub"@,
            ValueOps::Mul => "mul"@,
            ValueOps::Div => "div"@,
            ValueOps::Eq => "eq"@,
            ValueOps::Lt => "lt"@,
            ValueOps::Gt => "gt"@,
            ValueOps::Le => "le"@,
            ValueOps::Ge => "ge"@,
            ValueOps::Not => "not"@,
            ValueOps::And => "and"@,
            ValueOps::Or => "or"@,
            ValueOps::Call => "call"@,
            ValueOps::Id => "id"@,
            ValueOps::Phi => "phi"@,
            ValueOps::Fadd => "fadd"@,
            ValueOps::Fsub => "fsub"@,
            ValueOps::Fmul => "fmul"@,
            ValueOps::Fdiv => "fdiv"@,
            ValueOps::Feq => "feq"@,
            ValueOps::Flt => "flt"@,
            ValueOps::Fgt => "fgt"@,
            ValueOps::Fle => "fle"@,
            ValueOps::Fge => "fge"@,
            ValueOps::Alloc => "alloc"@,
            ValueOps::Load => "load"@,
            ValueOps::PtrAdd => "ptradd"@,
        }
    }

    /// Whether the capabilities admit this operation.
    pub open spec fn enabled(self, caps: Capabilities) -> bool {
        match self {
            ValueOps::Add => true,
            ValueOps::Sub => true,
            ValueOps::Mul => true,
            ValueOps::Div => true,
            ValueOps::Eq => true,
            ValueOps::Lt => true,
            ValueOps::Gt => true,
            ValueOps::Le => true,
            ValueOps::Ge => true,
            ValueOps::Not => true,
            ValueOps::And => true,
            ValueOps::Or => true,
            ValueOps::Call => true,
            ValueOps::Id => true,
            ValueOps::Phi => caps.ssa,
            ValueOps::Fadd => caps.float,
            ValueOps::Fsub => caps.float,
            ValueOps::Fmul => caps.float,
            ValueOps::Fdiv => caps.float,
            ValueOps::Feq => caps.float,
            ValueOps::Flt => caps.float,
            ValueOps::Fgt => caps.float,
            ValueOps::Fle => caps.float,
            ValueOps::Fge => caps.float,
            ValueOps::Alloc => caps.memory,
            ValueOps::Load => caps.memory,
            ValueOps::PtrAdd => caps.memory,
        }
    }

    /// The operation that `s` spells, if the capabilities admit it.
    pub open spec fn accepted(s: Seq<char>, caps: Capabilities) -> Option<ValueOps> {
        if exists|op: ValueOps| op.spelling() == s && op.enabled(caps) {
            Some(choose|op: ValueOps| op.spelling() == s && op.enabled(caps))
        } else {
            None
        }
    }

    /// No two operations share a spelling.
    pub proof fn lemma_spelling_injective(a: ValueOps, b: ValueOps)
        ensures
            a.spelling() == b.spelling() ==> a == b,
    {
        reveal_strlit("add");
        reveal_strlit("sub");
        reveal_strlit("mul");
        reveal_strlit("div");
        reveal_strlit("eq");
        reveal_strlit("lt");
        reveal_strlit("gt");
        reveal_strlit("le");
        reveal_strlit("ge");
        reveal_strlit("not");
        reveal_strlit("and");
        reveal_strlit("or");
        reveal_strlit("call");
        reveal_strlit("id");
        reveal_strlit("phi");
        reveal_strlit("fadd");
        reveal_strlit("fsub");
        reveal_strlit("fmul");
        reveal_strlit("fdiv");
        reveal_strlit("feq");
        reveal_strlit("flt");
        reveal_strlit("fgt");
        reveal_strlit("fle");
        reveal_strlit("fge");
        reveal_strlit("alloc");
        reveal_strlit("load");
        reveal_strlit("ptradd");
        if a.spelling() == b.spelling() {
            assert(a.spelling().len() == b.spelling().len());
            if a.spelling().len() > 0 {
                assert(a.spelling()[0] == b.spelling()[0]);
            }
            if a.spelling().len() > 1 {
                assert(a.spelling()[1] == b.spelling()[1]);
            }
            if a.spelling().len() > 2 {
                assert(a.spelling()[2] == b.spelling()[2]);
            }
            if a.spelling().len() > 3 {
                assert(a.spelling()[3] == b.spelling()[3]);
            }
            if a.spelling().len() > 4 {
                assert(a.spelling()[4] == b.spelling()[4]);
            }
            if a.spelling().len() > 5 {
                assert(a.spelling()[5] == b.spelling()[5]);
            }
            if a.spelling().len() > 6 {
                assert(a.spelling()[6] == b.spelling()[6]);
            }
            if a.spelling().len() > 7 {
                assert(a.spelling()[7] == b.spelling()[7]);
            }
            if a.spelling().len() > 8 {
                assert(a.spelling()[8] == b.spelling()[8]);
            }
            match a {
                ValueOps::Add => { assert(a.spelling() =~= "add"@); }
                ValueOps::Sub => { assert(a.spelling() =~= "sub"@); }
                ValueOps::Mul => { assert(a.spelling() =~= "mul"@); }
                ValueOps::Div => { assert(a.spelling() =~= "div"@); }
                ValueOps::Eq => { assert(a.spelling() =~= "eq"@); }
                ValueOps::Lt => { assert(a.spelling() =~= "lt"@); }
                ValueOps::Gt => { assert(a.spelling() =~= "gt"@); }
                ValueOps::Le => { assert(a.spelling() =~= "le"@); }
                ValueOps::Ge => { assert(a.spelling() =~= "ge"@); }
                ValueOps::Not => { assert(a.spelling() =~= "not"@); }
                ValueOps::And => { assert(a.spelling() =~= "and"@); }
                ValueOps::Or => { assert(a.spelling() =~= "or"@); }
                ValueOps::Call => { assert(a.spelling() =~= "call"@); }
                ValueOps::Id => { assert(a.spelling() =~= "id"@); }
                ValueOps::Phi => { assert(a.spelling() =~= "phi"@); }
                ValueOps::Fadd => { assert(a.spelling() =~= "fadd"@); }
                ValueOps::Fsub => { assert(a.spelling() =~= "fsub"@); }
                ValueOps::Fmul => { assert(a.spelling() =~= "fmul"@); }
                ValueOps::Fdiv => { assert(a.spelling() =~= "fdiv"@); }
                ValueOps::Feq => { assert(a.spelling() =~= "feq"@); }
                ValueOps::Flt => { assert(a.spelling() =~= "flt"@); }
                ValueOps::Fgt => { assert(a.spelling() =~= "fgt"@); }
                ValueOps::Fle => { assert(a.spelling() =~= "fle"@); }
                ValueOps::Fge => { assert(a.spelling() =~= "fge"@); }
                ValueOps::Alloc => { assert(a.spelling() =~= "alloc"@); }
                ValueOps::Load => { assert(a.spelling() =~= "load"@); }
                ValueOps::PtrAdd => { assert(a.spelling() =~= "ptradd"@); }
            }
        }
    }

    /// An enabled operation is accepted under its own spelling.
    pub proof fn lemma_accepted_spelling(op: ValueOps, caps: Capabilities)
        requires
            op.enabled(caps),
        ensures
            ValueOps::accepted(op.spelling(), caps) == Some(op),
    {
        assert(op.spelling() == op.spelling() && op.enabled(caps));
        let c = choose|c: ValueOps| c.spelling() == op.spelling() && c.enabled(caps);
        ValueOps::lemma_spelling_injective(c, op);
    }

    /// No such operation is spelled like the constant operation.
    pub proof fn lemma_not_constant(op: ValueOps, caps: Capabilities)
        ensures
            ConstOps::accepted(op.spelling(), caps) is None,
    {
        reveal_strlit("const");
        reveal_strlit("add");
        reveal_strlit("sub");
        reveal_strlit("mul");
        reveal_strlit("div");
        reveal_strlit("eq");
        reveal_strlit("lt");
        reveal_strlit("gt");
        reveal_strlit("le");
        reveal_strlit("ge");
        reveal_strlit("not");
        reveal_strlit("and");
        reveal_strlit("or");
        reveal_strlit("call");
        reveal_strlit("id");
        reveal_strlit("phi");
        reveal_strlit("fadd");
        reveal_strlit("fsub");
        reveal_strlit("fmul");
        reveal_strlit("fdiv");
        reveal_strlit("feq");
        reveal_strlit("flt");
        reveal_strlit("fgt");
        reveal_strlit("fle");
        reveal_strlit("fge");
        reveal_strlit("alloc");
        reveal_strlit("load");
        reveal_strlit("ptradd");
        if op.spelling() == "const"@ {
            assert(op.spelling().len() == 5);
            assert(op.spelling()[0] == 'c');
            assert(op.spelling()[1] == 'o');
            match op {
                ValueOps::Add => {
                    assert(op.spelling() =~= "add"@);
                },
                ValueOps::Sub => {
                    assert(op.spelling() =~= "sub"@);
                },
                ValueOps::Mul => {
                    assert(op.spelling() =~= "mul"@);
                },
                ValueOps::Div => {
                    assert(op.spelling() =~= "div"@);
                },
                ValueOps::Eq => {
                    assert(op.spelling() =~= "eq"@);
                },
                ValueOps::Lt => {
                    assert(op.spelling() =~= "lt"@);
                },
                ValueOps::Gt => {
                    assert(op.spelling() =~= "gt"@);
                },
                ValueOps::Le => {
                    assert(op.spelling() =~= "le"@);
                },
                ValueOps::Ge => {
                    assert(op.spelling() =~= "ge"@);
                },
                ValueOps::Not => {
                    assert(op.spelling() =~= "not"@);
                },
                ValueOps::And => {
                    assert(op.spelling() =~= "and"@);
                },
                ValueOps::Or => {
                    assert(op.spelling() =~= "or"@);
                },
                ValueOps::Call => {
                    assert(op.spelling() =~= "call"@);
                },
                ValueOps::Id => {
                    assert(op.spelling() =~= "id"@);
                },
                ValueOps::Phi => {
                    assert(op.spelling() =~= "phi"@);
                },
                ValueOps::Fadd => {
                    assert(op.spelling() =~= "fadd"@);
                },
                ValueOps::Fsub => {
                    assert(op.spelling() =~= "fsub"@);
                },
                ValueOps::Fmul => {
                    assert(op.spelling() =~= "fmul"@);
                },
                ValueOps::Fdiv => {
                    assert(op.spelling() =~= "fdiv"@);
                },
                ValueOps::Feq => {
                    assert(op.spelling() =~= "feq"@);
                },
                ValueOps::Flt => {
                    assert(op.spelling() =~= "flt"@);
                },
                ValueOps::Fgt => {
                    assert(op.spelling() =~= "fgt"@);
                },
                ValueOps::Fle => {
                    assert(op.spelling() =~= "fle"@);
                },
                ValueOps::Fge => {
                    assert(op.spelling() =~= "fge"@);
                },
                ValueOps::Alloc => {
                    assert(op.spelling() =~= "alloc"@);
                },
                ValueOps::Load => {
                    assert(op.spelling() =~= "load"@);
                },
                ValueOps::PtrAdd => {
                    assert(op.spelling() =~= "ptradd"@);
                },
            }
        }
        assert forall|c: ConstOps| c.spelling() != op.spelling() by {
            match c {
                ConstOps::Const => {},
            }
        }
    }

    /// The operation's spelling in the text encoding.
    pub fn text(&self) -> (r: &'static str)
        ensures
            r@ == self.spelling(),
    {
        match self {
            ValueOps::Add => "add",
            ValueOps::Sub => "sub",
            ValueOps::Mul => "mul",
            ValueOps::Div => "div",
            ValueOps::Eq => "eq",
            ValueOps::Lt => "lt",
            ValueOps::Gt => "gt",
            ValueOps::Le => "le",
            ValueOps::Ge => "ge",
            ValueOps::Not => "not",
            ValueOps::And => "and",
            ValueOps::Or => "or",
            ValueOps::Call => "call",
            ValueOps::Id => "id",
            ValueOps::Phi => "phi",
            ValueOps::Fadd => "fadd",
            ValueOps::Fsub => "fsub",
            ValueOps::Fmul => "fmul",
            ValueOps::Fdiv => "fdiv",
            ValueOps::Feq => "feq",
            ValueOps::Flt => "flt",
            ValueOps::Fgt => "fgt",
            ValueOps::Fle => "fle",
            ValueOps::Fge => "fge",
            ValueOps::Alloc => "alloc",
            ValueOps::Load => "load",
            ValueOps::PtrAdd => "ptradd",
        }
    }

    /// Whether the capabilities admit this operation.
    pub fn is_enabled(&self, caps: Capabilities) -> (r: bool)
        ensures
            r == self.enabled(caps),
    {
        match self {
            ValueOps::Add => true,
            ValueOps::Sub => true,
            ValueOps::Mul => true,
            ValueOps::Div => true,
            ValueOps::Eq => true,
            ValueOps::Lt => true,
            ValueOps::Gt => true,
            ValueOps::Le => true,
            ValueOps::Ge => true,
            ValueOps::Not => true,
            ValueOps::And => true,
            ValueOps::Or => true,
            ValueOps::Call => true,
            ValueOps::Id => true,
            ValueOps::Phi => caps.ssa,
            ValueOps::Fadd => caps.float,
            ValueOps::Fsub => caps.float,
            ValueOps::Fmul => caps.float,
            ValueOps::Fdiv => caps.float,
            ValueOps::Feq => caps.float,
            ValueOps::Flt => caps.float,
            ValueOps::Fgt => caps.float,
            ValueOps::Fle => caps.float,
            ValueOps::Fge => caps.float,
            ValueOps::Alloc => caps.memory,
            ValueOps::Load => caps.memory,
            ValueOps::PtrAdd => caps.memory,
        }
    }

    /// The operation spelled `s`, whatever the capabilities.
    fn lookup(s: &String) -> (r: Option<ValueOps>)
        ensures
            match r {
                Some(op) => op.spelling() == s@,
                None => forall|op: ValueOps| op.spelling() != s@,
            },
    {
        let r = if is_text(s, "add") {
            Some(ValueOps::Add)
        } else if is_text(s, "sub") {
            Some(ValueOps::Sub)
        } else if is_text(s, "mul") {
            Some(ValueOps::Mul)
        } else if is_text(s, "div") {
            Some(ValueOps::Div)
        } else if is_text(s, "eq") {
            Some(ValueOps::Eq)
        } else if is_text(s, "lt") {
            Some(ValueOps::Lt)
        } else if is_text(s, "gt") {
            Some(ValueOps::Gt)
        } else if is_text(s, "le") {
            Some(ValueOps::Le)
        } else if is_text(s, "ge") {
            Some(ValueOps::Ge)
        } else if is_text(s, "not") {
            Some(ValueOps::Not)
        } else if is_text(s, "and") {
            Some(ValueOps::And)
        } else if is_text(s, "or") {
            Some(ValueOps::Or)
        } else if is_text(s, "call") {
            Some(ValueOps::Call)
        } else if is_text(s, "id") {
            Some(ValueOps::Id)
        } else if is_text(s, "phi") {
            Some(ValueOps::Phi)
        } else if is_text(s, "fadd") {
            Some(ValueOps::Fadd)
        } else if is_text(s, "fsub") {
            Some(ValueOps::Fsub)
        } else if is_text(s, "fmul") {
            Some(ValueOps::Fmul)
        } else if is_text(s, "fdiv") {
            Some(ValueOps::Fdiv)
        } else if is_text(s, "feq") {
            Some(ValueOps::Feq)
        } else if is_text(s, "flt") {
            Some(ValueOps::Flt)
        } else if is_text(s, "fgt") {
            Some(ValueOps::Fgt)
        } else if is_text(s, "fle") {
            Some(ValueOps::Fle)
        } else if is_text(s, "fge") {
            Some(ValueOps::Fge)
        } else if is_text(s, "alloc") {
            Some(ValueOps::Alloc)
        } else if is_text(s, "load") {
            Some(ValueOps::Load)
        } else if is_text(s, "ptradd") {
            Some(ValueOps::PtrAdd)
        } else {
            None
        };
        proof {
            if r is None {
                assert forall|op: ValueOps| op.spelling() != s@ by {
                    match op {
                    ValueOps::Add => {},
                    ValueOps::Sub => {},
                    ValueOps::Mul => {},
                    ValueOps::Div => {},
                    ValueOps::Eq => {},
                    ValueOps::Lt => {},
                    ValueOps::Gt => {},
                    ValueOps::Le => {},
                    ValueOps::Ge => {},
                    ValueOps::Not => {},
                    ValueOps::And => {},
                    ValueOps::Or => {},
                    ValueOps::Call => {},
                    ValueOps::Id => {},
                    ValueOps::Phi => {},
                    ValueOps::Fadd => {},
                    ValueOps::Fsub => {},
                    ValueOps::Fmul => {},
                    ValueOps::Fdiv => {},
                    ValueOps::Feq => {},
                    ValueOps::Flt => {},
                    ValueOps::Fgt => {},
                    ValueOps::Fle => {},
                    ValueOps::Fge => {},
                    ValueOps::Alloc => {},
                    ValueOps::Load => {},
                    ValueOps::PtrAdd => {},
                    }
                }
            }
        }
        r
    }

    /// The operation spelled `s`, if the capabilities admit it.
    pub fn from_text(s: &String, caps: Capabilities) -> (r: Option<ValueOps>)
        ensures
            r == ValueOps::accepted(s@, caps),
    {
        let found = ValueOps::lookup(s);
        match found {
            Some(op) => {
                proof {
                    assert forall|other: ValueOps| other.spelling() == s@ implies other == op by {
                        ValueOps::lemma_spelling_injective(other, op);
                    }
                }
                if op.is_enabled(caps) {
                    Some(op)
                } else {
                    None
                }
            },
            None => None,
        }
    }
}

} // verus!
