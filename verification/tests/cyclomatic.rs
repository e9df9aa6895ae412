use code_metrics::builder::metrics;
use code_metrics::langs::CppCode;
use code_metrics::langs::CppKind;
use code_metrics::langs::JavaCode;
use code_metrics::langs::JavaKind;
use code_metrics::langs::PythonCode;
use code_metrics::langs::PythonKind;
use code_metrics::langs::RustCode;
use code_metrics::langs::RustKind;
use code_metrics::stats::Stats;
use code_metrics::tree::SyntaxNode;

fn node<K>(kind: K, children: Vec<SyntaxNode<K>>) -> SyntaxNode<K> {
    SyntaxNode { kind, children }
}

fn leaf<K>(kind: K) -> SyntaxNode<K> {
    SyntaxNode {
        kind,
        children: vec![],
    }
}

fn check(stats: &Stats, sum: u64, average: f64, min: u64, max: u64) {
    assert_eq!(stats.cyclomatic_sum(), sum);
    let (num, den) = stats.cyclomatic_average();
    assert_eq!(num as f64 / den as f64, average);
    assert_eq!(stats.cyclomatic_min(), min);
    assert_eq!(stats.cyclomatic_max(), max);
}

// def f(a, b): # +2 (+1 unit space)
//     if a and b:  # +2 (+1 and)
//        return 1
//     if c and d: # +2 (+1 and)
//        return 1
#[test]
fn python_simple_function() {
    let root = node(
        PythonKind::Module,
        vec![node(
            PythonKind::FunctionDefinition,
            vec![
                node(PythonKind::If, vec![leaf(PythonKind::And)]),
                node(PythonKind::If, vec![leaf(PythonKind::And)]),
            ],
        )],
    );
    let stats = metrics::<PythonCode, PythonKind>(&root);
    // nspace = 2 (func and unit)
    check(&stats, 6, 3.0, 1, 5);
}

// def f(a, b): # +2 (+1 unit space)
//     if a:  # +1
//         for i in range(b):  # +1
//             return 1
#[test]
fn python_1_level_nesting() {
    let root = node(
        PythonKind::Module,
        vec![node(
            PythonKind::FunctionDefinition,
            vec![node(
                PythonKind::If,
                vec![node(PythonKind::ForStatement, vec![leaf(PythonKind::For)])],
            )],
        )],
    );
    let stats = metrics::<PythonCode, PythonKind>(&root);
    // nspace = 2 (func and unit)
    check(&stats, 4, 2.0, 1, 3);
}

// fn f() { // +2 (+1 unit space)
//     if true { // +1
//         match true {
//             true => println!("test"), // +1
//             false => println!("test"), // +1
//         }
//     }
// }
#[test]
fn rust_1_level_nesting() {
    let root = node(
        RustKind::SourceFile,
        vec![node(
            RustKind::FunctionItem,
            vec![node(
                RustKind::If,
                vec![node(
                    RustKind::Other,
                    vec![leaf(RustKind::MatchArm), leaf(RustKind::MatchArm2)],
                )],
            )],
        )],
    );
    let stats = metrics::<RustCode, RustKind>(&root);
    // nspace = 2 (func and unit)
    check(&stats, 5, 2.5, 1, 4);
}

// void f() { // +2 (+1 unit space)
//     switch (1) {
//         case 1: // +1
//         case 2: // +1
//         case 3: // +1
//         default:
//     }
// }
#[test]
fn c_switch() {
    let root = node(
        CppKind::TranslationUnit,
        vec![node(
            CppKind::FunctionDefinition,
            vec![node(
                CppKind::Other,
                vec![
                    leaf(CppKind::Case),
                    leaf(CppKind::Case),
                    leaf(CppKind::Case),
                ],
            )],
        )],
    );
    let stats = metrics::<CppCode, CppKind>(&root);
    // nspace = 2 (func and unit)
    check(&stats, 5, 2.5, 1, 4);
}

// int sumOfPrimes(int max) { // +2 (+1 unit space)
//     OUT: for (...) { // +1
//         for (...) { // +1
//             if (...) { // +1
//             }
//         }
//     }
// }
#[test]
fn c_real_function() {
    let root = node(
        CppKind::TranslationUnit,
        vec![node(
            CppKind::FunctionDefinition,
            vec![node(
                CppKind::For,
                vec![node(CppKind::For, vec![leaf(CppKind::If)])],
            )],
        )],
    );
    let stats = metrics::<CppCode, CppKind>(&root);
    // nspace = 2 (func and unit)
    check(&stats, 5, 2.5, 1, 4);
}

// Two top-level ifs (unit space, +2 with the unit baseline), then the
// sumOfPrimes function (complexity 4).
#[test]
fn c_unit_before() {
    let root = node(
        CppKind::TranslationUnit,
        vec![
            leaf(CppKind::If),
            leaf(CppKind::If),
            node(
                CppKind::FunctionDefinition,
                vec![node(
                    CppKind::For,
                    vec![node(CppKind::For, vec![leaf(CppKind::If)])],
                )],
            ),
        ],
    );
    let stats = metrics::<CppCode, CppKind>(&root);
    // nspace = 2 (func and unit)
    check(&stats, 7, 3.5, 3, 4);
}

// The same file with the function first: the min must still be the unit
// space's 3, even though the merge happens before the unit space's own
// local value is final.
#[test]
fn c_unit_after() {
    let root = node(
        CppKind::TranslationUnit,
        vec![
            node(
                CppKind::FunctionDefinition,
                vec![node(
                    CppKind::For,
                    vec![node(CppKind::For, vec![leaf(CppKind::If)])],
                )],
            ),
            leaf(CppKind::If),
            leaf(CppKind::If),
        ],
    );
    let stats = metrics::<CppCode, CppKind>(&root);
    // nspace = 2 (func and unit)
    check(&stats, 7, 3.5, 3, 4);
}

// public class Example { // +2 (+1 unit space)
//     boolean b = (a > 5) ? true : false; // +1
//     boolean c = b && true; // +1
//     public void m1() { // +1
//         if (a % 2 == 0) { // +1
//             b = b || c; // +1
//         }
//     }
//     public void m2() { // +1
//         while (a > 3) { // +1
//         }
//     }
// }
#[test]
fn java_simple_class() {
    let root = node(
        JavaKind::Program,
        vec![node(
            JavaKind::ClassDeclaration,
            vec![
                leaf(JavaKind::TernaryExpression),
                leaf(JavaKind::AMPAMP),
                node(
                    JavaKind::MethodDeclaration,
                    vec![node(JavaKind::If, vec![leaf(JavaKind::PIPEPIPE)])],
                ),
                node(JavaKind::MethodDeclaration, vec![leaf(JavaKind::While)]),
            ],
        )],
    );
    let stats = metrics::<JavaCode, JavaKind>(&root);
    // nspace = 4 (unit, class and 2 methods)
    check(&stats, 9, 2.25, 1, 3);
}

// public class Matrix { // +2 (+1 unit space)
//     public void init() { // +1: two nested for loops (+2)
//     public int compute(int i, int j) { // +1: two catch clauses (+2)
//     public void print(int result) { // +1: two cases (+2), default free
// }
#[test]
fn java_real_class() {
    let root = node(
        JavaKind::Program,
        vec![node(
            JavaKind::ClassDeclaration,
            vec![
                node(
                    JavaKind::MethodDeclaration,
                    vec![node(JavaKind::For, vec![leaf(JavaKind::For)])],
                ),
                node(
                    JavaKind::MethodDeclaration,
                    vec![node(
                        JavaKind::Other,
                        vec![leaf(JavaKind::Catch), leaf(JavaKind::Catch)],
                    )],
                ),
                node(
                    JavaKind::MethodDeclaration,
                    vec![node(
                        JavaKind::Other,
                        vec![leaf(JavaKind::Case), leaf(JavaKind::Case)],
                    )],
                ),
            ],
        )],
    );
    let stats = metrics::<JavaCode, JavaKind>(&root);
    // nspace = 5 (unit, class and 3 methods)
    check(&stats, 11, 2.2, 1, 3);
}

// abstract class A { // +2 (+1 unit space)
//     public abstract boolean m1(int n); // +1
//     public abstract boolean m2(int n); // +1
// }
// public class B { // +1
//     public void test() { // +1
//         A a = new A() { // the anonymous class body is no space
//             public boolean m1(int n) { // +1
//                 if (n % 2 == 0) { ... } // +1
//             }
//             public boolean m2(int n) { // +1
//                 if (n % 5 == 0) { ... } // +1
//             }
//         };
//     }
// }
#[test]
fn java_anonymous_class() {
    let root = node(
        JavaKind::Program,
        vec![
            node(
                JavaKind::ClassDeclaration,
                vec![
                    leaf(JavaKind::MethodDeclaration),
                    leaf(JavaKind::MethodDeclaration),
                ],
            ),
            node(
                JavaKind::ClassDeclaration,
                vec![node(
                    JavaKind::MethodDeclaration,
                    vec![node(
                        JavaKind::Other,
                        vec![
                            node(JavaKind::MethodDeclaration, vec![leaf(JavaKind::If)]),
                            node(JavaKind::MethodDeclaration, vec![leaf(JavaKind::If)]),
                        ],
                    )],
                )],
            ),
        ],
    );
    let stats = metrics::<JavaCode, JavaKind>(&root);
    // nspace = 8 (unit, 2 classes and 5 methods)
    check(&stats, 10, 1.25, 1, 2);
}
