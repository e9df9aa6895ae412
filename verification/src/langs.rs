//! The per-language decision classifiers.
//!
//! Every language gets its own node-kind vocabulary (grammars are not
//! aligned, so the vocabularies are deliberately distinct types) and a
//! marker type implementing [`Cyclomatic`]. The rule is uniform — a
//! kind-membership test, optionally guarded by an ancestor search — only
//! the tables differ. Languages with no defined classification (Kotlin,
//! preprocessor-only and comment-only pseudo-languages) get the no-op
//! classifier: an empty table.

use vstd::prelude::*;

verus! {

use crate::classify::Cyclomatic;
use crate::stats::Stats;
use crate::tree::found_before_stop;

// ---------------------------------------------------------------------
// Python
// ---------------------------------------------------------------------
/// Node kinds of the Python grammar read by the classifier. Statement
/// nodes (`ForStatement`, `WhileStatement`, `ElseClause`) are
/// distinguished from the keyword tokens (`For`, `While`, `Else`) they
/// contain: the tokens are the counted decision points, the statement
/// nodes only steer the loop-`else` ancestor search. Any kind the
/// classifier does not read is `Other`.
#[derive(Debug, Clone, Copy)]
pub enum PythonKind {
    If,
    Elif,
    For,
    While,
    Except,
    With,
    Assert,
    And,
    Or,
    Else,
    ForStatement,
    WhileStatement,
    ElseClause,
    FunctionDefinition,
    ClassDefinition,
    Lambda,
    Module,
    Other,
}

/// A `for`/`while` statement: the successful end of the loop-`else`
/// ancestor search.
pub open spec fn python_loop_kind(k: PythonKind) -> bool {
    match k {
        PythonKind::ForStatement | PythonKind::WhileStatement => true,
        _ => false,
    }
}

/// An `else` clause: the stopping end of the loop-`else` ancestor search.
pub open spec fn python_else_clause_kind(k: PythonKind) -> bool {
    match k {
        PythonKind::ElseClause => true,
        _ => false,
    }
}

/// Whether an `else` keyword under the given ancestors is the trailing
/// clause of a `for`/`while` loop — a genuine alternate path, counted —
/// rather than the `else` of an `if`, which is already implied by its
/// paired condition. The search walks upward until it meets a loop
/// statement (count) or the nearest enclosing `else` clause (do not).
pub open spec fn python_loop_else(ancestors: Seq<PythonKind>) -> bool {
    found_before_stop(
        ancestors,
        |k: PythonKind| python_loop_kind(k),
        |k: PythonKind| python_else_clause_kind(k),
    )
}

/// The executable loop-`else` ancestor search.
fn python_loop_else_search(ancestors: &Vec<PythonKind>) -> (r: bool)
    ensures
        r == python_loop_else(ancestors@),
{
    proof {
        assert(ancestors@.subrange(0, ancestors@.len() as int) =~= ancestors@);
    }
    let mut i: usize = ancestors.len();
    while i > 0
        invariant
            i <= ancestors@.len(),
            python_loop_else(ancestors@) == python_loop_else(
                ancestors@.subrange(0, i as int),
            ),
        decreases i,
    {
        i = i - 1;
        proof {
            assert(ancestors@.subrange(0, i as int + 1).last() == ancestors@[i as int]);
            assert(ancestors@.subrange(0, i as int + 1).drop_last() =~= ancestors@.subrange(
                0,
                i as int,
            ));
        }
        match ancestors[i] {
            PythonKind::ForStatement => {
                return true;
            },
            PythonKind::WhileStatement => {
                return true;
            },
            PythonKind::ElseClause => {
                return false;
            },
            _ => {},
        }
    }
    proof {
        assert(ancestors@.subrange(0, 0) =~= Seq::<PythonKind>::empty());
    }
    false
}

/// The Python language marker.
pub struct PythonCode;

impl Cyclomatic<PythonKind> for PythonCode {
    open spec fn spec_decision(k: PythonKind, ancestors: Seq<PythonKind>) -> bool {
        match k {
            PythonKind::If
            | PythonKind::Elif
            | PythonKind::For
            | PythonKind::While
            | PythonKind::Except
            | PythonKind::With
            | PythonKind::Assert
            | PythonKind::And
            | PythonKind::Or => true,
            PythonKind::Else => python_loop_else(ancestors),
            _ => false,
        }
    }

    open spec fn spec_space(k: PythonKind) -> bool {
        match k {
            PythonKind::FunctionDefinition | PythonKind::ClassDefinition | PythonKind::Lambda
                => true,
            _ => false,
        }
    }

    fn is_space(k: &PythonKind) -> (r: bool) {
        match k {
            PythonKind::FunctionDefinition | PythonKind::ClassDefinition | PythonKind::Lambda
                => true,
            _ => false,
        }
    }

    fn compute(k: &PythonKind, ancestors: &Vec<PythonKind>, stats: &mut Stats) {
        match k {
            PythonKind::If
            | PythonKind::Elif
            | PythonKind::For
            | PythonKind::While
            | PythonKind::Except
            | PythonKind::With
            | PythonKind::Assert
            | PythonKind::And
            | PythonKind::Or => {
                stats.increment();
            },
            PythonKind::Else => {
                if python_loop_else_search(ancestors) {
                    stats.increment();
                }
            },
            _ => {},
        }
    }
}

// ---------------------------------------------------------------------
// Mozjs
// ---------------------------------------------------------------------
/// Node kinds of the Mozjs dialect grammar read by the classifier.
#[derive(Debug, Clone, Copy)]
pub enum MozjsKind {
    If,
    For,
    While,
    Case,
    Catch,
    TernaryExpression,
    AMPAMP,
    PIPEPIPE,
    FunctionDeclaration,
    ArrowFunction,
    ClassDeclaration,
    MethodDefinition,
    Program,
    Other,
}

/// The Mozjs language marker.
pub struct MozjsCode;

impl Cyclomatic<MozjsKind> for MozjsCode {
    open spec fn spec_decision(k: MozjsKind, ancestors: Seq<MozjsKind>) -> bool {
        match k {
            MozjsKind::If
            | MozjsKind::For
            | MozjsKind::While
            | MozjsKind::Case
            | MozjsKind::Catch
            | MozjsKind::TernaryExpression
            | MozjsKind::AMPAMP
            | MozjsKind::PIPEPIPE => true,
            _ => false,
        }
    }

    open spec fn spec_space(k: MozjsKind) -> bool {
        match k {
            MozjsKind::FunctionDeclaration
            | MozjsKind::ArrowFunction
            | MozjsKind::ClassDeclaration
            | MozjsKind::MethodDefinition => true,
            _ => false,
        }
    }

    fn is_space(k: &MozjsKind) -> (r: bool) {
        match k {
            MozjsKind::FunctionDeclaration
            | MozjsKind::ArrowFunction
            | MozjsKind::ClassDeclaration
            | MozjsKind::MethodDefinition => true,
            _ => false,
        }
    }

    fn compute(k: &MozjsKind, ancestors: &Vec<MozjsKind>, stats: &mut Stats) {
        match k {
            MozjsKind::If
            | MozjsKind::For
            | MozjsKind::While
            | MozjsKind::Case
            | MozjsKind::Catch
            | MozjsKind::TernaryExpression
            | MozjsKind::AMPAMP
            | MozjsKind::PIPEPIPE => {
                stats.increment();
            },
            _ => {},
        }
    }
}

// ---------------------------------------------------------------------
// Javascript
// ---------------------------------------------------------------------
/// Node kinds of the JavaScript grammar read by the classifier.
#[derive(Debug, Clone, Copy)]
pub enum JavascriptKind {
    If,
    For,
    While,
    Case,
    Catch,
    TernaryExpression,
    AMPAMP,
    PIPEPIPE,
    FunctionDeclaration,
    ArrowFunction,
    ClassDeclaration,
    MethodDefinition,
    Program,
    Other,
}

/// The JavaScript language marker.
pub struct JavascriptCode;

impl Cyclomatic<JavascriptKind> for JavascriptCode {
    open spec fn spec_decision(k: JavascriptKind, ancestors: Seq<JavascriptKind>) -> bool {
        match k {
            JavascriptKind::If
            | JavascriptKind::For
            | JavascriptKind::While
            | JavascriptKind::Case
            | JavascriptKind::Catch
            | JavascriptKind::TernaryExpression
            | JavascriptKind::AMPAMP
            | JavascriptKind::PIPEPIPE => true,
            _ => false,
        }
    }

    open spec fn spec_space(k: JavascriptKind) -> bool {
        match k {
            JavascriptKind::FunctionDeclaration
            | JavascriptKind::ArrowFunction
            | JavascriptKind::ClassDeclaration
            | JavascriptKind::MethodDefinition => true,
            _ => false,
        }
    }

    fn is_space(k: &JavascriptKind) -> (r: bool) {
        match k {
            JavascriptKind::FunctionDeclaration
            | JavascriptKind::ArrowFunction
            | JavascriptKind::ClassDeclaration
            | JavascriptKind::MethodDefinition => true,
            _ => false,
        }
    }

    fn compute(k: &JavascriptKind, ancestors: &Vec<JavascriptKind>, stats: &mut Stats) {
        match k {
            JavascriptKind::If
            | JavascriptKind::For
            | JavascriptKind::While
            | JavascriptKind::Case
            | JavascriptKind::Catch
            | JavascriptKind::TernaryExpression
            | JavascriptKind::AMPAMP
            | JavascriptKind::PIPEPIPE => {
                stats.increment();
            },
            _ => {},
        }
    }
}

// ---------------------------------------------------------------------
// Typescript
// ---------------------------------------------------------------------
/// Node kinds of the TypeScript grammar read by the classifier.
#[derive(Debug, Clone, Copy)]
pub enum TypescriptKind {
    If,
    For,
    While,
    Case,
    Catch,
    TernaryExpression,
    AMPAMP,
    PIPEPIPE,
    FunctionDeclaration,
    ArrowFunction,
    ClassDeclaration,
    MethodDefinition,
    Program,
    Other,
}

/// The TypeScript language marker.
pub struct TypescriptCode;

impl Cyclomatic<TypescriptKind> for TypescriptCode {
    open spec fn spec_decision(k: TypescriptKind, ancestors: Seq<TypescriptKind>) -> bool {
        match k {
            TypescriptKind::If
            | TypescriptKind::For
            | TypescriptKind::While
            | TypescriptKind::Case
            | TypescriptKind::Catch
            | TypescriptKind::TernaryExpression
            | TypescriptKind::AMPAMP
            | TypescriptKind::PIPEPIPE => true,
            _ => false,
        }
    }

    open spec fn spec_space(k: TypescriptKind) -> bool {
        match k {
            TypescriptKind::FunctionDeclaration
            | TypescriptKind::ArrowFunction
            | TypescriptKind::ClassDeclaration
            | TypescriptKind::MethodDefinition => true,
            _ => false,
        }
    }

    fn is_space(k: &TypescriptKind) -> (r: bool) {
        match k {
            TypescriptKind::FunctionDeclaration
            | TypescriptKind::ArrowFunction
            | TypescriptKind::ClassDeclaration
            | TypescriptKind::MethodDefinition => true,
            _ => false,
        }
    }

    fn compute(k: &TypescriptKind, ancestors: &Vec<TypescriptKind>, stats: &mut Stats) {
        match k {
            TypescriptKind::If
            | TypescriptKind::For
            | TypescriptKind::While
            | TypescriptKind::Case
            | TypescriptKind::Catch
            | TypescriptKind::TernaryExpression
            | TypescriptKind::AMPAMP
            | TypescriptKind::PIPEPIPE => {
                stats.increment();
            },
            _ => {},
        }
    }
}

// ---------------------------------------------------------------------
// Tsx
// ---------------------------------------------------------------------
/// Node kinds of the TSX grammar read by the classifier.
#[derive(Debug, Clone, Copy)]
pub enum TsxKind {
    If,
    For,
    While,
    Case,
    Catch,
    TernaryExpression,
    AMPAMP,
    PIPEPIPE,
    FunctionDeclaration,
    ArrowFunction,
    ClassDeclaration,
    MethodDefinition,
    Program,
    Other,
}

/// The TSX language marker.
pub struct TsxCode;

impl Cyclomatic<TsxKind> for TsxCode {
    open spec fn spec_decision(k: TsxKind, ancestors: Seq<TsxKind>) -> bool {
        match k {
            TsxKind::If
            | TsxKind::For
            | TsxKind::While
            | TsxKind::Case
            | TsxKind::Catch
            | TsxKind::TernaryExpression
            | TsxKind::AMPAMP
            | TsxKind::PIPEPIPE => true,
            _ => false,
        }
    }

    open spec fn spec_space(k: TsxKind) -> bool {
        match k {
            TsxKind::FunctionDeclaration
            | TsxKind::ArrowFunction
            | TsxKind::ClassDeclaration
            | TsxKind::MethodDefinition => true,
            _ => false,
        }
    }

    fn is_space(k: &TsxKind) -> (r: bool) {
        match k {
            TsxKind::FunctionDeclaration
            | TsxKind::ArrowFunction
            | TsxKind::ClassDeclaration
            | TsxKind::MethodDefinition => true,
            _ => false,
        }
    }

    fn compute(k: &TsxKind, ancestors: &Vec<TsxKind>, stats: &mut Stats) {
        match k {
            TsxKind::If
            | TsxKind::For
            | TsxKind::While
            | TsxKind::Case
            | TsxKind::Catch
            | TsxKind::TernaryExpression
            | TsxKind::AMPAMP
            | TsxKind::PIPEPIPE => {
                stats.increment();
            },
            _ => {},
        }
    }
}

// ---------------------------------------------------------------------
// Rust
// ---------------------------------------------------------------------
/// Node kinds of the Rust grammar read by the classifier. The two
/// match-arm kinds are the grammar's two representations of the same
/// semantic construct; both are counted.
#[derive(Debug, Clone, Copy)]
pub enum RustKind {
    If,
    For,
    While,
    Loop,
    MatchArm,
    MatchArm2,
    TryExpression,
    AMPAMP,
    PIPEPIPE,
    FunctionItem,
    ClosureExpression,
    ImplItem,
    TraitItem,
    SourceFile,
    Other,
}

/// The Rust language marker.
pub struct RustCode;

impl Cyclomatic<RustKind> for RustCode {
    open spec fn spec_decision(k: RustKind, ancestors: Seq<RustKind>) -> bool {
        match k {
            RustKind::If
            | RustKind::For
            | RustKind::While
            | RustKind::Loop
            | RustKind::MatchArm
            | RustKind::MatchArm2
            | RustKind::TryExpression
            | RustKind::AMPAMP
            | RustKind::PIPEPIPE => true,
            _ => false,
        }
    }

    open spec fn spec_space(k: RustKind) -> bool {
        match k {
            RustKind::FunctionItem
            | RustKind::ClosureExpression
            | RustKind::ImplItem
            | RustKind::TraitItem => true,
            _ => false,
        }
    }

    fn is_space(k: &RustKind) -> (r: bool) {
        match k {
            RustKind::FunctionItem
            | RustKind::ClosureExpression
            | RustKind::ImplItem
            | RustKind::TraitItem => true,
            _ => false,
        }
    }

    fn compute(k: &RustKind, ancestors: &Vec<RustKind>, stats: &mut Stats) {
        match k {
            RustKind::If
            | RustKind::For
            | RustKind::While
            | RustKind::Loop
            | RustKind::MatchArm
            | RustKind::MatchArm2
            | RustKind::TryExpression
            | RustKind::AMPAMP
            | RustKind::PIPEPIPE => {
                stats.increment();
            },
            _ => {},
        }
    }
}

// ---------------------------------------------------------------------
// C / C++
// ---------------------------------------------------------------------
/// Node kinds of the C/C++ grammar read by the classifier.
#[derive(Debug, Clone, Copy)]
pub enum CppKind {
    If,
    For,
    While,
    Case,
    Catch,
    ConditionalExpression,
    AMPAMP,
    PIPEPIPE,
    FunctionDefinition,
    LambdaExpression,
    ClassSpecifier,
    StructSpecifier,
    TranslationUnit,
    Other,
}

/// The C/C++ language marker.
pub struct CppCode;

impl Cyclomatic<CppKind> for CppCode {
    open spec fn spec_decision(k: CppKind, ancestors: Seq<CppKind>) -> bool {
        match k {
            CppKind::If
            | CppKind::For
            | CppKind::While
            | CppKind::Case
            | CppKind::Catch
            | CppKind::ConditionalExpression
            | CppKind::AMPAMP
            | CppKind::PIPEPIPE => true,
            _ => false,
        }
    }

    open spec fn spec_space(k: CppKind) -> bool {
        match k {
            CppKind::FunctionDefinition
            | CppKind::LambdaExpression
            | CppKind::ClassSpecifier
            | CppKind::StructSpecifier => true,
            _ => false,
        }
    }

    fn is_space(k: &CppKind) -> (r: bool) {
        match k {
            CppKind::FunctionDefinition
            | CppKind::LambdaExpression
            | CppKind::ClassSpecifier
            | CppKind::StructSpecifier => true,
            _ => false,
        }
    }

    fn compute(k: &CppKind, ancestors: &Vec<CppKind>, stats: &mut Stats) {
        match k {
            CppKind::If
            | CppKind::For
            | CppKind::While
            | CppKind::Case
            | CppKind::Catch
            | CppKind::ConditionalExpression
            | CppKind::AMPAMP
            | CppKind::PIPEPIPE => {
                stats.increment();
            },
            _ => {},
        }
    }
}

// ---------------------------------------------------------------------
// Java
// ---------------------------------------------------------------------
/// Node kinds of the Java grammar read by the classifier. An anonymous
/// class body is not a space of its own (`Other`): only its methods open
/// spaces, so their complexity is not folded into the method that
/// instantiates the class.
#[derive(Debug, Clone, Copy)]
pub enum JavaKind {
    If,
    For,
    While,
    Case,
    Catch,
    TernaryExpression,
    AMPAMP,
    PIPEPIPE,
    ClassDeclaration,
    InterfaceDeclaration,
    MethodDeclaration,
    ConstructorDeclaration,
    LambdaExpression,
    Program,
    Other,
}

/// The Java language marker.
pub struct JavaCode;

impl Cyclomatic<JavaKind> for JavaCode {
    open spec fn spec_decision(k: JavaKind, ancestors: Seq<JavaKind>) -> bool {
        match k {
            JavaKind::If
            | JavaKind::For
            | JavaKind::While
            | JavaKind::Case
            | JavaKind::Catch
            | JavaKind::TernaryExpression
            | JavaKind::AMPAMP
            | JavaKind::PIPEPIPE => true,
            _ => false,
        }
    }

    open spec fn spec_space(k: JavaKind) -> bool {
        match k {
            JavaKind::ClassDeclaration
            | JavaKind::InterfaceDeclaration
            | JavaKind::MethodDeclaration
            | JavaKind::ConstructorDeclaration
            | JavaKind::LambdaExpression => true,
            _ => false,
        }
    }

    fn is_space(k: &JavaKind) -> (r: bool) {
        match k {
            JavaKind::ClassDeclaration
            | JavaKind::InterfaceDeclaration
            | JavaKind::MethodDeclaration
            | JavaKind::ConstructorDeclaration
            | JavaKind::LambdaExpression => true,
            _ => false,
        }
    }

    fn compute(k: &JavaKind, ancestors: &Vec<JavaKind>, stats: &mut Stats) {
        match k {
            JavaKind::If
            | JavaKind::For
            | JavaKind::While
            | JavaKind::Case
            | JavaKind::Catch
            | JavaKind::TernaryExpression
            | JavaKind::AMPAMP
            | JavaKind::PIPEPIPE => {
                stats.increment();
            },
            _ => {},
        }
    }
}

// ---------------------------------------------------------------------
// Languages with no defined classification
// ---------------------------------------------------------------------
/// Node kinds of the Kotlin grammar: the classifier reads none of them.
#[derive(Debug, Clone, Copy)]
pub enum KotlinKind {
    Other,
}

/// The Kotlin language marker: no classification is defined, so the
/// classifier is a no-op and local complexity keeps its baseline of 1.
pub struct KotlinCode;

impl Cyclomatic<KotlinKind> for KotlinCode {
    open spec fn spec_decision(k: KotlinKind, ancestors: Seq<KotlinKind>) -> bool {
        false
    }

    open spec fn spec_space(k: KotlinKind) -> bool {
        false
    }

    fn is_space(k: &KotlinKind) -> (r: bool) {
        false
    }

    fn compute(k: &KotlinKind, ancestors: &Vec<KotlinKind>, stats: &mut Stats) {
    }
}

/// Node kinds of the preprocessor-only pseudo-language.
#[derive(Debug, Clone, Copy)]
pub enum PreprocKind {
    Other,
}

/// The preprocessor pseudo-language marker: no-op classifier.
pub struct PreprocCode;

impl Cyclomatic<PreprocKind> for PreprocCode {
    open spec fn spec_decision(k: PreprocKind, ancestors: Seq<PreprocKind>) -> bool {
        false
    }

    open spec fn spec_space(k: PreprocKind) -> bool {
        false
    }

    fn is_space(k: &PreprocKind) -> (r: bool) {
        false
    }

    fn compute(k: &PreprocKind, ancestors: &Vec<PreprocKind>, stats: &mut Stats) {
    }
}

/// Node kinds of the comment-only pseudo-language.
#[derive(Debug, Clone, Copy)]
pub enum CcommentKind {
    Other,
}

/// The comment pseudo-language marker: no-op classifier.
pub struct CcommentCode;

impl Cyclomatic<CcommentKind> for CcommentCode {
    open spec fn spec_decision(k: CcommentKind, ancestors: Seq<CcommentKind>) -> bool {
        false
    }

    open spec fn spec_space(k: CcommentKind) -> bool {
        false
    }

    fn is_space(k: &CcommentKind) -> (r: bool) {
        false
    }

    fn compute(k: &CcommentKind, ancestors: &Vec<CcommentKind>, stats: &mut Stats) {
    }
}

} // verus!
