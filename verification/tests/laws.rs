use code_metrics::builder::metrics;
use code_metrics::langs::JavascriptCode;
use code_metrics::langs::JavascriptKind;
use code_metrics::langs::KotlinCode;
use code_metrics::langs::KotlinKind;
use code_metrics::langs::MozjsCode;
use code_metrics::langs::MozjsKind;
use code_metrics::langs::PythonCode;
use code_metrics::langs::PythonKind;
use code_metrics::langs::TsxCode;
use code_metrics::langs::TsxKind;
use code_metrics::langs::TypescriptCode;
use code_metrics::langs::TypescriptKind;
use code_metrics::stats::Stats;
use code_metrics::tree::SyntaxNode;

fn tree<K>(kind: K, children: Vec<SyntaxNode<K>>) -> SyntaxNode<K> {
    SyntaxNode { kind, children }
}

fn tip<K>(kind: K) -> SyntaxNode<K> {
    SyntaxNode {
        kind,
        children: vec![],
    }
}

fn four(stats: &Stats) -> (u64, u64, u64, u64) {
    (
        stats.cyclomatic_sum(),
        stats.cyclomatic_count(),
        stats.cyclomatic_min(),
        stats.cyclomatic_max(),
    )
}

fn sample(decisions: usize) -> Stats {
    let body: Vec<SyntaxNode<PythonKind>> =
        (0..decisions).map(|_| tip(PythonKind::If)).collect();
    let root = tree(
        PythonKind::Module,
        vec![tree(PythonKind::FunctionDefinition, body)],
    );
    metrics::<PythonCode, PythonKind>(&root)
}

// Merging finalized statistics is commutative on all four aggregate
// fields.
#[test]
fn merge_commutative() {
    let a = sample(4);
    let b = sample(1);
    let mut ab = a.clone();
    ab.merge(&b);
    let mut ba = b.clone();
    ba.merge(&a);
    assert_eq!(four(&ab), four(&ba));
}

// Merging finalized statistics is associative.
#[test]
fn merge_associative() {
    let a = sample(4);
    let b = sample(1);
    let c = sample(7);
    let mut left = a.clone();
    left.merge(&b);
    left.merge(&c);
    let mut bc = b.clone();
    bc.merge(&c);
    let mut right = a.clone();
    right.merge(&bc);
    assert_eq!(four(&left), four(&right));
}

// A space with zero decision points has local complexity exactly 1: a
// file holding one empty function yields two spaces of complexity 1.
#[test]
fn baseline_is_one() {
    let root = tree(
        PythonKind::Module,
        vec![tip(PythonKind::FunctionDefinition)],
    );
    let stats = metrics::<PythonCode, PythonKind>(&root);
    assert_eq!(four(&stats), (2, 2, 1, 1));
    assert_eq!(stats.cyclomatic(), 1);
}

// An empty file still has its unit space, with the baseline complexity.
#[test]
fn empty_unit_space() {
    let root = tip(PythonKind::Module);
    let stats = metrics::<PythonCode, PythonKind>(&root);
    assert_eq!(four(&stats), (1, 1, 1, 1));
}

// The average is the exact rational sum / count.
#[test]
fn average_identity() {
    let stats = sample(2);
    let (num, den) = stats.cyclomatic_average();
    assert_eq!(num, stats.cyclomatic_sum());
    assert_eq!(den, stats.cyclomatic_count());
    assert_eq!(num as f64 / den as f64, 2.0);
}

// A fresh accumulator: local complexity 1, counting itself, extrema at
// the fold identities.
#[test]
fn default_accumulator() {
    let stats = Stats::default();
    assert_eq!(stats.cyclomatic(), 1);
    assert_eq!(stats.cyclomatic_sum(), 0);
    assert_eq!(stats.cyclomatic_count(), 1);
    assert_eq!(stats.cyclomatic_max(), 0);
    assert_eq!(stats.cyclomatic_min(), u64::MAX);
}

// A Python else that closes a for loop is a genuine alternate path: it
// counts.
#[test]
fn python_loop_else_counts() {
    let root = tree(
        PythonKind::Module,
        vec![tree(
            PythonKind::FunctionDefinition,
            vec![tree(
                PythonKind::ForStatement,
                vec![tip(PythonKind::For), tip(PythonKind::Else)],
            )],
        )],
    );
    let stats = metrics::<PythonCode, PythonKind>(&root);
    assert_eq!(four(&stats), (4, 2, 1, 3));
}

// A Python else paired with an if is already implied by its condition:
// it does not count.
#[test]
fn python_if_else_free() {
    let root = tree(
        PythonKind::Module,
        vec![tree(
            PythonKind::FunctionDefinition,
            vec![tree(
                PythonKind::If,
                vec![tree(PythonKind::ElseClause, vec![tip(PythonKind::Else)])],
            )],
        )],
    );
    let stats = metrics::<PythonCode, PythonKind>(&root);
    assert_eq!(four(&stats), (3, 2, 1, 2));
}

// An if inside a loop body keeps its else free: the nearest enclosing
// else clause is met before the loop statement.
#[test]
fn python_nested_if_else_in_loop() {
    let root = tree(
        PythonKind::Module,
        vec![tree(
            PythonKind::FunctionDefinition,
            vec![tree(
                PythonKind::ForStatement,
                vec![
                    tip(PythonKind::For),
                    tree(
                        PythonKind::If,
                        vec![tree(PythonKind::ElseClause, vec![tip(PythonKind::Else)])],
                    ),
                ],
            )],
        )],
    );
    let stats = metrics::<PythonCode, PythonKind>(&root);
    // for +1, if +1, else free
    assert_eq!(four(&stats), (4, 2, 1, 3));
}

#[test]
fn javascript_function() {
    let root = tree(
        JavascriptKind::Program,
        vec![tree(
            JavascriptKind::FunctionDeclaration,
            vec![
                tip(JavascriptKind::TernaryExpression),
                tip(JavascriptKind::AMPAMP),
            ],
        )],
    );
    let stats = metrics::<JavascriptCode, JavascriptKind>(&root);
    assert_eq!(four(&stats), (4, 2, 1, 3));
}

#[test]
fn mozjs_function() {
    let root = tree(
        MozjsKind::Program,
        vec![tree(
            MozjsKind::ArrowFunction,
            vec![tip(MozjsKind::Case), tip(MozjsKind::PIPEPIPE)],
        )],
    );
    let stats = metrics::<MozjsCode, MozjsKind>(&root);
    assert_eq!(four(&stats), (4, 2, 1, 3));
}

#[test]
fn typescript_function() {
    let root = tree(
        TypescriptKind::Program,
        vec![tree(
            TypescriptKind::MethodDefinition,
            vec![tip(TypescriptKind::Catch)],
        )],
    );
    let stats = metrics::<TypescriptCode, TypescriptKind>(&root);
    assert_eq!(four(&stats), (3, 2, 1, 2));
}

#[test]
fn tsx_function() {
    let root = tree(
        TsxKind::Program,
        vec![tree(TsxKind::ClassDeclaration, vec![tip(TsxKind::While)])],
    );
    let stats = metrics::<TsxCode, TsxKind>(&root);
    assert_eq!(four(&stats), (3, 2, 1, 2));
}

// A language with no defined classification never moves off the
// baseline.
#[test]
fn kotlin_no_op() {
    let root = tree(
        KotlinKind::Other,
        vec![tip(KotlinKind::Other), tip(KotlinKind::Other)],
    );
    let stats = metrics::<KotlinCode, KotlinKind>(&root);
    assert_eq!(four(&stats), (1, 1, 1, 1));
}
