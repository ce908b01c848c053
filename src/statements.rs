use vstd::prelude::*;
use vstd::string::*;

use crate::function::{FunctionType, FunctionTypeModel, FunctionValue, FunctionModel};
use crate::stringify::Stringify;
use crate::text::same_text;
use crate::text::{join, lemma_join_all, lemma_join_step};
use crate::types::{lemma_types_view, type_texts, types_view, MirageTypeEnum, TypeModel};
use crate::util::List;
use crate::values::{MirageObject, ObjectModel};

verus! {

/// A module declaration, written `module <name>;`.
#[derive(Debug, PartialEq)]
pub struct ModuleDecl {
    pub name: String,
}

impl ModuleDecl {
    pub fn new(name: String) -> (r: Self)
        ensures
            r.name == name,
    {
        Self { name }
    }
}

impl ModuleDecl {
    pub fn print_to_string(&self) -> (r: String)
        ensures
            r@ == "module "@ + self.name@ + ";"@,
    {
        let mut s = String::from_str("module ");
        s.append(self.name.as_str());
        s.append(";");
        s
    }
}

impl Stringify for ModuleDecl {
    fn to_string(&self) -> (r: String) {
        self.print_to_string()
    }
}

/// The index of the first `-` in `s` at or after `from`, or the length of `s`.
pub open spec fn dash_from(s: Seq<char>, from: int) -> int
    decreases s.len() - from,
{
    if from >= s.len() {
        s.len() as int
    } else if s[from] == '-' {
        from
    } else {
        dash_from(s, from + 1)
    }
}

proof fn lemma_dash_from(s: Seq<char>, from: int)
    requires
        0 <= from <= s.len(),
    ensures
        from <= dash_from(s, from) <= s.len(),
    decreases s.len() - from,
{
    if from < s.len() && s[from] != '-' {
        lemma_dash_from(s, from + 1);
    }
}

fn find_dash(s: &str, from: usize) -> (r: usize)
    requires
        from <= s@.len(),
    ensures
        r == dash_from(s@, from as int),
        from <= r <= s@.len(),
{
    let n = s.unicode_len();
    let mut i = from;
    while i < n
        invariant
            n == s@.len(),
            from <= i <= n,
            dash_from(s@, from as int) == dash_from(s@, i as int),
        decreases n - i,
    {
        if s.get_char(i) == '-' {
            return i;
        }
        i = i + 1;
    }
    i
}

/// The target of a program: operating system, architecture and compiler,
/// written `target <os>-<arch>-<compiler>;`.
#[derive(Debug, Clone, Copy, PartialEq, Eq, Structural)]
pub struct Target(pub TargetType);

impl Target {
    pub fn new(os: Os, arch: Arch, compiler: Compiler) -> (r: Self)
        ensures
            r.0 == (TargetType { os, arch, compiler }),
    {
        Self(TargetType::new(os, arch, compiler))
    }

    pub fn from(os: &str, arch: &str, compiler: &str) -> (r: Self)
        ensures
            r.0 == (TargetType { os: os_of(os@), arch: arch_of(arch@), compiler: compiler_of(compiler@) }),
    {
        Self(TargetType::from(os, arch, compiler))
    }

    pub fn parse(target: &str) -> (r: Self)
        ensures
            r.0 == TargetType::parsed(target@),
    {
        Self(TargetType::parse(target))
    }
}

impl Target {
    pub fn print_to_string(&self) -> (r: String)
        ensures
            r@ == "target "@ + self.0.text() + ";"@,
    {
        let mut s = String::from_str("target ");
        s.append(self.0.to_str().as_str());
        s.append(";");
        s
    }
}

impl Stringify for Target {
    fn to_string(&self) -> (r: String) {
        self.print_to_string()
    }
}

#[derive(Debug, Clone, Copy, PartialEq, Eq, Structural)]
pub struct TargetType {
    pub os: Os,
    pub arch: Arch,
    pub compiler: Compiler,
}

impl TargetType {
    /// The target named by `s`: its `-`-separated pieces name the os, the arch and the
    /// compiler in turn; a missing piece is `Unknown`.
    pub open spec fn parsed(s: Seq<char>) -> TargetType {
        let e0 = dash_from(s, 0);
        let e1 = dash_from(s, e0 + 1);
        let e2 = dash_from(s, e1 + 1);
        TargetType {
            os: os_of(s.subrange(0, e0)),
            arch: if e0 < s.len() { arch_of(s.subrange(e0 + 1, e1)) } else { Arch::Unknown },
            compiler: if e0 < s.len() && e1 < s.len() {
                compiler_of(s.subrange(e1 + 1, e2))
            } else {
                Compiler::Unknown
            },
        }
    }

    pub fn new(os: Os, arch: Arch, compiler: Compiler) -> (r: Self)
        ensures
            r == (TargetType { os, arch, compiler }),
    {
        Self { os, arch, compiler }
    }

    pub fn from(os: &str, arch: &str, compiler: &str) -> (r: Self)
        ensures
            r == (TargetType { os: os_of(os@), arch: arch_of(arch@), compiler: compiler_of(compiler@) }),
    {
        Self { os: Os::new(os), arch: Arch::new(arch), compiler: Compiler::new(compiler) }
    }

    pub fn parse(target: &str) -> (r: Self)
        ensures
            r == TargetType::parsed(target@),
    {
        let n = target.unicode_len();
        let e0 = find_dash(target, 0);
        let os = Os::new(target.substring_char(0, e0));
        let mut arch = Arch::Unknown;
        let mut compiler = Compiler::Unknown;
        if e0 < n {
            let e1 = find_dash(target, e0 + 1);
            arch = Arch::new(target.substring_char(e0 + 1, e1));
            if e1 < n {
                let e2 = find_dash(target, e1 + 1);
                compiler = Compiler::new(target.substring_char(e1 + 1, e2));
            }
        }
        Self { os, arch, compiler }
    }

    /// The text `<os>-<arch>-<compiler>`.
    /// The text `<os>-<arch>-<compiler>`.
    pub open spec fn text(self) -> Seq<char> {
        self.os.name() + "-"@ + self.arch.name() + "-"@ + self.compiler.name()
    }

    pub fn to_str(&self) -> (r: String)
        ensures
            r@ == self.text(),
    {
        let mut s = String::from_str(self.os.to_str());
        s.append("-");
        s.append(self.arch.to_str());
        s.append("-");
        s.append(self.compiler.to_str());
        s
    }
}

/// An operating system.
#[derive(Debug, Clone, Copy, PartialEq, Eq, Structural)]
pub enum Os {
    Linux,
    Windows,
    MacOs,
    Android,
    Ios,
    Unknown,
}

/// The os named by `s`; `Unknown` for any other name.
pub open spec fn os_of(s: Seq<char>) -> Os {
    if s == "linux"@ {
        Os::Linux
    } else if s == "windows"@ {
        Os::Windows
    } else if s == "macos"@ {
        Os::MacOs
    } else if s == "android"@ {
        Os::Android
    } else if s == "ios"@ {
        Os::Ios
    } else {
        Os::Unknown
    }
}

impl Os {
    /// The name of this os in text.
    pub open spec fn name(self) -> Seq<char> {
        match self {
            Os::Linux => "linux"@,
            Os::Windows => "windows"@,
            Os::MacOs => "macos"@,
            Os::Android => "android"@,
            Os::Ios => "ios"@,
            Os::Unknown => "unknown"@,
        }
    }

    pub fn new(s: &str) -> (r: Self)
        ensures
            r == os_of(s@),
    {
        proof {
            reveal_strlit("linux");
            reveal_strlit("windows");
            reveal_strlit("macos");
            reveal_strlit("android");
            reveal_strlit("ios");
            assert("linux"@.len() != "windows"@.len());
            assert("linux"@[0] != "macos"@[0]);
            assert("linux"@.len() != "android"@.len());
            assert("linux"@.len() != "ios"@.len());
            assert("windows"@.len() != "macos"@.len());
            assert("windows"@[0] != "android"@[0]);
            assert("windows"@.len() != "ios"@.len());
            assert("macos"@.len() != "android"@.len());
            assert("macos"@.len() != "ios"@.len());
            assert("android"@.len() != "ios"@.len());
        }
        if same_text(s, "linux") {
            Os::Linux
        } else if same_text(s, "windows") {
            Os::Windows
        } else if same_text(s, "macos") {
            Os::MacOs
        } else if same_text(s, "android") {
            Os::Android
        } else if same_text(s, "ios") {
            Os::Ios
        } else {
            Os::Unknown
        }
    }

    pub fn to_str(&self) -> (r: &'static str)
        ensures
            r@ == self.name(),
    {
        match self {
            Os::Linux => "linux",
            Os::Windows => "windows",
            Os::MacOs => "macos",
            Os::Android => "android",
            Os::Ios => "ios",
            Os::Unknown => "unknown",
        }
    }
}

/// A processor architecture.
#[derive(Debug, Clone, Copy, PartialEq, Eq, Structural)]
pub enum Arch {
    X86,
    X86_64,
    Arm,
    Arm64,
    Unknown,
}

/// The arch named by `s`; `Unknown` for any other name.
pub open spec fn arch_of(s: Seq<char>) -> Arch {
    if s == "x86"@ {
        Arch::X86
    } else if s == "x86_64"@ {
        Arch::X86_64
    } else if s == "arm"@ {
        Arch::Arm
    } else if s == "arm64"@ {
        Arch::Arm64
    } else {
        Arch::Unknown
    }
}

impl Arch {
    /// The name of this arch in text.
    pub open spec fn name(self) -> Seq<char> {
        match self {
            Arch::X86 => "x86"@,
            Arch::X86_64 => "x86_64"@,
            Arch::Arm => "arm"@,
            Arch::Arm64 => "arm64"@,
            Arch::Unknown => "unknown"@,
        }
    }

    pub fn new(s: &str) -> (r: Self)
        ensures
            r == arch_of(s@),
    {
        proof {
            reveal_strlit("x86");
            reveal_strlit("x86_64");
            reveal_strlit("arm");
            reveal_strlit("arm64");
            assert("x86"@.len() != "x86_64"@.len());
            assert("x86"@[0] != "arm"@[0]);
            assert("x86"@.len() != "arm64"@.len());
            assert("x86_64"@.len() != "arm"@.len());
            assert("x86_64"@.len() != "arm64"@.len());
            assert("arm"@.len() != "arm64"@.len());
        }
        if same_text(s, "x86") {
            Arch::X86
        } else if same_text(s, "x86_64") {
            Arch::X86_64
        } else if same_text(s, "arm") {
            Arch::Arm
        } else if same_text(s, "arm64") {
            Arch::Arm64
        } else {
            Arch::Unknown
        }
    }

    pub fn to_str(&self) -> (r: &'static str)
        ensures
            r@ == self.name(),
    {
        match self {
            Arch::X86 => "x86",
            Arch::X86_64 => "x86_64",
            Arch::Arm => "arm",
            Arch::Arm64 => "arm64",
            Arch::Unknown => "unknown",
        }
    }
}

/// A compiler whose conventions the output follows.
#[derive(Debug, Clone, Copy, PartialEq, Eq, Structural)]
pub enum Compiler {
    Gcc,
    Clang,
    Msvc,
    All,
    Unknown,
}

/// The compiler named by `s`; `Unknown` for any other name.
pub open spec fn compiler_of(s: Seq<char>) -> Compiler {
    if s == "gcc"@ {
        Compiler::Gcc
    } else if s == "clang"@ {
        Compiler::Clang
    } else if s == "msvc"@ {
        Compiler::Msvc
    } else if s == "all"@ {
        Compiler::All
    } else {
        Compiler::Unknown
    }
}

impl Compiler {
    /// The name of this compiler in text.
    pub open spec fn name(self) -> Seq<char> {
        match self {
            Compiler::Gcc => "gcc"@,
            Compiler::Clang => "clang"@,
            Compiler::Msvc => "msvc"@,
            Compiler::All => "all"@,
            Compiler::Unknown => "unknown"@,
        }
    }

    pub fn new(s: &str) -> (r: Self)
        ensures
            r == compiler_of(s@),
    {
        proof {
            reveal_strlit("gcc");
            reveal_strlit("clang");
            reveal_strlit("msvc");
            reveal_strlit("all");
            assert("gcc"@.len() != "clang"@.len());
            assert("gcc"@.len() != "msvc"@.len());
            assert("gcc"@[0] != "all"@[0]);
            assert("clang"@.len() != "msvc"@.len());
            assert("clang"@.len() != "all"@.len());
            assert("msvc"@.len() != "all"@.len());
        }
        if same_text(s, "gcc") {
            Compiler::Gcc
        } else if same_text(s, "clang") {
            Compiler::Clang
        } else if same_text(s, "msvc") {
            Compiler::Msvc
        } else if same_text(s, "all") {
            Compiler::All
        } else {
            Compiler::Unknown
        }
    }

    pub fn to_str(&self) -> (r: &'static str)
        ensures
            r@ == self.name(),
    {
        match self {
            Compiler::Gcc => "gcc",
            Compiler::Clang => "clang",
            Compiler::Msvc => "msvc",
            Compiler::All => "all",
            Compiler::Unknown => "unknown",
        }
    }
}

/// The mathematical model of a global.
pub struct GlobalModel {
    pub name: Seq<char>,
    pub value: ObjectModel,
}

/// A global variable, written `global <name> = <value>`.
#[derive(Debug, PartialEq)]
pub struct Global {
    pub name: String,
    pub value: MirageObject,
}

impl View for Global {
    type V = GlobalModel;

    open spec fn view(&self) -> GlobalModel {
        GlobalModel { name: self.name@, value: self.value@ }
    }
}

impl Global {
    pub fn new(name: String, value: MirageObject) -> (r: Self)
        ensures
            r.name == name,
            r.value == value,
    {
        Self { name, value }
    }

    pub fn duplicate(&self) -> (r: Self)
        ensures
            r@ == self@,
    {
        Global { name: self.name.clone(), value: self.value.duplicate() }
    }
}

impl Clone for Global {
    fn clone(&self) -> (r: Self)
        ensures
            r@ == self@,
    {
        self.duplicate()
    }
}

impl Global {
    pub fn print_to_string(&self) -> (r: String)
        ensures
            r@ == "global "@ + self.name@ + " = "@ + self.value@.value.text(),
    {
        let mut s = String::from_str("global ");
        s.append(self.name.as_str());
        s.append(" = ");
        s.append(self.value.value.print_to_string().as_str());
        s
    }
}

impl Stringify for Global {
    fn to_string(&self) -> (r: String) {
        self.print_to_string()
    }
}

/// An external function declaration, written `extern <name> : <type>;`.
#[derive(Debug, PartialEq)]
pub struct External {
    pub name: String,
    pub ty: FunctionType,
}

impl External {
    pub fn new(name: String, ty: FunctionType) -> (r: Self)
        ensures
            r.name == name,
            r.ty == ty,
    {
        Self { name, ty }
    }
}

impl External {
    pub fn print_to_string(&self) -> (r: String)
        ensures
            r@ == "extern "@ + self.name@ + " : "@ + self.ty@.text() + ";"@,
    {
        let mut s = String::from_str("extern ");
        s.append(self.name.as_str());
        s.append(" : ");
        s.append(self.ty.print_to_string().as_str());
        s.append(";");
        s
    }
}

impl Stringify for External {
    fn to_string(&self) -> (r: String) {
        self.print_to_string()
    }
}

/// A named struct layout, written `type <name> = { fields... };`.
#[derive(Debug, PartialEq)]
pub struct TypeDef {
    pub name: String,
    pub ty: List<MirageTypeEnum>,
}

impl TypeDef {
    pub fn new(name: String, ty: List<MirageTypeEnum>) -> (r: Self)
        ensures
            r.name == name,
            r.ty == ty,
    {
        Self { name, ty }
    }
}

impl TypeDef {
    pub fn print_to_string(&self) -> (r: String)
        ensures
            r@ == "type "@ + self.name@ + " = {"@ + join(type_texts(types_view(self.ty.inner@)), ","@) + "};"@,
    {
        let ghost texts = type_texts(types_view(self.ty.inner@));
        proof {
            lemma_types_view(self.ty.inner@);
        }
        let mut s = String::from_str("type ");
        s.append(self.name.as_str());
        s.append(" = {");
        let ghost head = s@;
        let mut i: usize = 0;
        while i < self.ty.inner.len()
            invariant
                i <= self.ty.inner@.len(),
                texts == type_texts(types_view(self.ty.inner@)),
                types_view(self.ty.inner@).len() == self.ty.inner@.len(),
                forall|j: int| 0 <= j < self.ty.inner@.len() ==> #[trigger] types_view(self.ty.inner@)[j] == self.ty.inner@[j]@,
                s@ == head + join(texts.take(i as int), ","@),
            decreases self.ty.inner@.len() - i,
        {
            proof {
                lemma_join_step(texts, ","@, i as int);
            }
            if i > 0 {
                s.append(",");
            }
            s.append(self.ty.inner[i].print_to_string().as_str());
            proof {
                assert(s@ =~= head + join(texts.take(i + 1), ","@));
            }
            i = i + 1;
        }
        proof {
            lemma_join_all(texts, ","@);
        }
        s.append("};");
        s
    }
}

impl Stringify for TypeDef {
    fn to_string(&self) -> (r: String) {
        self.print_to_string()
    }
}

/// The mathematical model of a top-level statement.
pub enum StatementModel {
    Module(Seq<char>),
    Target(TargetType),
    Global(GlobalModel),
    Function(FunctionModel),
    External(Seq<char>, FunctionTypeModel),
    Typedef(Seq<char>, Seq<TypeModel>),
}

/// A top-level item of a program.
#[derive(Debug, PartialEq)]
pub enum Statement {
    Module(ModuleDecl),
    Target(Target),
    Global(Global),
    Function(FunctionValue),
    External(External),
    Typedef(TypeDef),
}

impl View for Statement {
    type V = StatementModel;

    open spec fn view(&self) -> StatementModel {
        match self {
            Statement::Module(m) => StatementModel::Module(m.name@),
            Statement::Target(t) => StatementModel::Target(t.0),
            Statement::Global(g) => StatementModel::Global(g@),
            Statement::Function(f) => StatementModel::Function(f@),
            Statement::External(e) => StatementModel::External(e.name@, e.ty@),
            Statement::Typedef(t) => StatementModel::Typedef(t.name@, types_view(t.ty.inner@)),
        }
    }
}

impl StatementModel {
    /// The text of a statement.
    pub open spec fn text(self) -> Seq<char> {
        match self {
            StatementModel::Module(n) => "module "@ + n + ";"@,
            StatementModel::Target(t) => "target "@ + t.text() + ";"@,
            StatementModel::Global(g) => "global "@ + g.name + " = "@ + g.value.value.text(),
            StatementModel::Function(f) => f.text(),
            StatementModel::External(n, t) => "extern "@ + n + " : "@ + t.text() + ";"@,
            StatementModel::Typedef(n, ts) => "type "@ + n + " = {"@ + join(type_texts(ts), ","@) + "};"@,
        }
    }
}

/// The models of a sequence of statements.
pub open spec fn statements_view(ss: Seq<Statement>) -> Seq<StatementModel> {
    ss.map_values(|s: Statement| s@)
}

impl Statement {
    pub fn is_module(&self) -> (r: bool)
        ensures
            r == self is Module,
    {
        match self {
            Statement::Module(_) => true,
            _ => false,
        }
    }

    pub fn is_target(&self) -> (r: bool)
        ensures
            r == self is Target,
    {
        match self {
            Statement::Target(_) => true,
            _ => false,
        }
    }

    pub fn is_global(&self) -> (r: bool)
        ensures
            r == self is Global,
    {
        match self {
            Statement::Global(_) => true,
            _ => false,
        }
    }

    pub fn is_function(&self) -> (r: bool)
        ensures
            r == self is Function,
    {
        match self {
            Statement::Function(_) => true,
            _ => false,
        }
    }

    pub fn is_external(&self) -> (r: bool)
        ensures
            r == self is External,
    {
        match self {
            Statement::External(_) => true,
            _ => false,
        }
    }

    pub fn is_typedef(&self) -> (r: bool)
        ensures
            r == self is Typedef,
    {
        match self {
            Statement::Typedef(_) => true,
            _ => false,
        }
    }

    /// A copy of this statement.
    pub fn duplicate(&self) -> (r: Self)
        ensures
            r@ == self@,
    {
        match self {
            Statement::Module(m) => Statement::Module(ModuleDecl { name: m.name.clone() }),
            Statement::Target(t) => Statement::Target(*t),
            Statement::Global(g) => Statement::Global(g.duplicate()),
            Statement::Function(f) => Statement::Function(f.duplicate()),
            Statement::External(e) => Statement::External(External { name: e.name.clone(), ty: e.ty.duplicate() }),
            Statement::Typedef(t) => Statement::Typedef(
                TypeDef { name: t.name.clone(), ty: List { inner: crate::types::duplicate_types(&t.ty.inner) } },
            ),
        }
    }
}

impl Clone for Statement {
    fn clone(&self) -> (r: Self)
        ensures
            r@ == self@,
    {
        self.duplicate()
    }
}

impl Statement {
    pub fn print_to_string(&self) -> (r: String)
        ensures
            r@ == self@.text(),
    {
        match self {
            Statement::Global(global) => global.print_to_string(),
            Statement::Function(function) => function.print_to_string(),
            Statement::External(external) => external.print_to_string(),
            Statement::Typedef(typedef) => typedef.print_to_string(),
            Statement::Module(module) => module.print_to_string(),
            Statement::Target(target) => target.print_to_string(),
        }
    }
}

impl Stringify for Statement {
    fn to_string(&self) -> (r: String) {
        self.print_to_string()
    }
}

} // verus!
