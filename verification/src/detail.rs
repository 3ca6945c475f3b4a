//! Detail enrichment: a fixed registry of descriptive metadata keyed by the
//! case-folded language name, an explicit default entry for names it does
//! not carry, and the lookup that combines a ranking record — found in the
//! list or synthesized as a placeholder — with the registry.

use vstd::prelude::*;

use crate::ranking::{models_of, Language, LanguageModel};
use crate::textops::{lower_of, lowercase};

verus! {

/// A ranking record enriched with descriptive metadata.
#[derive(Debug, Clone, PartialEq, Eq)]
pub struct LanguageDetail {
    pub name: String,
    pub rank: i32,
    pub rating: String,
    pub description: String,
    pub use_cases: Vec<String>,
    pub frameworks: Vec<String>,
}

/// Mathematical model of an enriched record.
pub ghost struct LanguageDetailModel {
    pub name: Seq<char>,
    pub rank: int,
    pub rating: Seq<char>,
    pub description: Seq<char>,
    pub use_cases: Seq<Seq<char>>,
    pub frameworks: Seq<Seq<char>>,
}

impl View for LanguageDetail {
    type V = LanguageDetailModel;

    open spec fn view(&self) -> LanguageDetailModel {
        LanguageDetailModel {
            name: self.name@,
            rank: self.rank as int,
            rating: self.rating@,
            description: self.description@,
            use_cases: self.use_cases.deep_view(),
            frameworks: self.frameworks.deep_view(),
        }
    }
}

/// One registry entry: descriptive metadata under a case-folded key.
#[derive(Debug, Clone, PartialEq, Eq)]
pub struct DetailEntry {
    pub key: String,
    pub description: String,
    pub use_cases: Vec<String>,
    pub frameworks: Vec<String>,
}

/// Mathematical model of a registry entry.
pub ghost struct DetailEntryModel {
    pub key: Seq<char>,
    pub description: Seq<char>,
    pub use_cases: Seq<Seq<char>>,
    pub frameworks: Seq<Seq<char>>,
}

impl View for DetailEntry {
    type V = DetailEntryModel;

    open spec fn view(&self) -> DetailEntryModel {
        DetailEntryModel {
            key: self.key@,
            description: self.description@,
            use_cases: self.use_cases.deep_view(),
            frameworks: self.frameworks.deep_view(),
        }
    }
}

/// The models of a sequence of registry entries, in order.
pub open spec fn entry_models(s: Seq<DetailEntry>) -> Seq<DetailEntryModel> {
    Seq::new(s.len(), |i: int| s[i]@)
}

/// A registry-entry model from its four fields.
pub open spec fn entry_model(
    key: Seq<char>,
    description: Seq<char>,
    use_cases: Seq<Seq<char>>,
    frameworks: Seq<Seq<char>>,
) -> DetailEntryModel {
    DetailEntryModel { key, description, use_cases, frameworks }
}

fn sv1(a: &str) -> (r: Vec<String>)
    ensures
        r.deep_view() == seq![a@],
{
    let mut v: Vec<String> = Vec::new();
    v.push(a.to_owned());
    proof {
        assert(v.deep_view() =~= seq![a@]);
    }
    v
}

fn sv2(a: &str, b: &str) -> (r: Vec<String>)
    ensures
        r.deep_view() == seq![a@, b@],
{
    let mut v: Vec<String> = Vec::new();
    v.push(a.to_owned());
    v.push(b.to_owned());
    proof {
        assert(v@.len() == 2);
        assert(v@[0]@ == a@);
        assert(v@[1]@ == b@);
        assert(v.deep_view() =~= seq![a@, b@]);
    }
    v
}

fn sv3(a: &str, b: &str, c: &str) -> (r: Vec<String>)
    ensures
        r.deep_view() == seq![a@, b@, c@],
{
    let mut v: Vec<String> = Vec::new();
    v.push(a.to_owned());
    v.push(b.to_owned());
    v.push(c.to_owned());
    proof {
        assert(v@.len() == 3);
        assert(v@[0]@ == a@);
        assert(v@[1]@ == b@);
        assert(v@[2]@ == c@);
        assert(v.deep_view() =~= seq![a@, b@, c@]);
    }
    v
}

fn sv4(a: &str, b: &str, c: &str, d: &str) -> (r: Vec<String>)
    ensures
        r.deep_view() == seq![a@, b@, c@, d@],
{
    let mut v: Vec<String> = Vec::new();
    v.push(a.to_owned());
    v.push(b.to_owned());
    v.push(c.to_owned());
    v.push(d.to_owned());
    proof {
        assert(v@.len() == 4);
        assert(v@[0]@ == a@);
        assert(v@[1]@ == b@);
        assert(v@[2]@ == c@);
        assert(v@[3]@ == d@);
        assert(v.deep_view() =~= seq![a@, b@, c@, d@]);
    }
    v
}

fn sv5(a: &str, b: &str, c: &str, d: &str, e: &str) -> (r: Vec<String>)
    ensures
        r.deep_view() == seq![a@, b@, c@, d@, e@],
{
    let mut v: Vec<String> = Vec::new();
    v.push(a.to_owned());
    v.push(b.to_owned());
    v.push(c.to_owned());
    v.push(d.to_owned());
    v.push(e.to_owned());
    proof {
        assert(v@.len() == 5);
        assert(v@[0]@ == a@);
        assert(v@[1]@ == b@);
        assert(v@[2]@ == c@);
        assert(v@[3]@ == d@);
        assert(v@[4]@ == e@);
        assert(v.deep_view() =~= seq![a@, b@, c@, d@, e@]);
    }
    v
}

fn sv6(a: &str, b: &str, c: &str, d: &str, e: &str, f: &str) -> (r: Vec<String>)
    ensures
        r.deep_view() == seq![a@, b@, c@, d@, e@, f@],
{
    let mut v: Vec<String> = Vec::new();
    v.push(a.to_owned());
    v.push(b.to_owned());
    v.push(c.to_owned());
    v.push(d.to_owned());
    v.push(e.to_owned());
    v.push(f.to_owned());
    proof {
        assert(v@.len() == 6);
        assert(v@[0]@ == a@);
        assert(v@[1]@ == b@);
        assert(v@[2]@ == c@);
        assert(v@[3]@ == d@);
        assert(v@[4]@ == e@);
        assert(v@[5]@ == f@);
        assert(v.deep_view() =~= seq![a@, b@, c@, d@, e@, f@]);
    }
    v
}

fn entry(key: &str, description: &str, use_cases: Vec<String>, frameworks: Vec<String>) -> (r:
    DetailEntry)
    ensures
        r@ == entry_model(key@, description@, use_cases.deep_view(), frameworks.deep_view()),
{
    DetailEntry {
        key: key.to_owned(),
        description: description.to_owned(),
        use_cases,
        frameworks,
    }
}

/// The fixed registry, in its fixed order; two spellings each share the
/// Delphi and the assembly metadata.
pub open spec fn registry_model() -> Seq<DetailEntryModel> {
    seq![
        entry_model(
            "python"@,
            "Python 是一种高级、通用的编程语言，以其简洁易读的语法著称。"@,
            seq!["数据科学"@, "机器学习"@, "Web开发"@, "自动化脚本"@, "科学计算"@],
            seq!["Django"@, "Flask"@, "FastAPI"@, "PyTorch"@, "TensorFlow"@, "Pandas"@],
        ),
        entry_model(
            "c"@,
            "C 是一种通用的过程式编程语言，广泛用于系统编程和嵌入式开发。"@,
            seq!["操作系统"@, "嵌入式系统"@, "驱动程序"@, "游戏引擎"@, "数据库"@],
            seq!["Linux Kernel"@, "SQLite"@, "Git"@, "Nginx"@],
        ),
        entry_model(
            "c++"@,
            "C++ 是 C 语言的扩展，支持面向对象编程，广泛用于高性能应用。"@,
            seq!["游戏开发"@, "系统软件"@, "浏览器"@, "数据库"@, "图形处理"@],
            seq!["Qt"@, "Boost"@, "Unreal Engine"@, "OpenCV"@],
        ),
        entry_model(
            "java"@,
            "Java 是一种面向对象的编程语言，以其跨平台特性著称。"@,
            seq!["企业应用"@, "Android开发"@, "大数据"@, "云计算"@, "微服务"@],
            seq!["Spring"@, "Hibernate"@, "Maven"@, "Gradle"@, "Apache Kafka"@],
        ),
        entry_model(
            "c#"@,
            "C# 是微软开发的面向对象编程语言，主要用于 .NET 平台开发。"@,
            seq!["Windows应用"@, "游戏开发"@, "Web服务"@, "企业软件"@, "云应用"@],
            seq![".NET Core"@, "ASP.NET"@, "Unity"@, "Xamarin"@, "Entity Framework"@],
        ),
        entry_model(
            "javascript"@,
            "JavaScript 是 Web 开发的核心语言，支持前端和后端开发。"@,
            seq!["前端开发"@, "后端开发"@, "移动应用"@, "桌面应用"@, "游戏开发"@],
            seq!["React"@, "Vue.js"@, "Angular"@, "Node.js"@, "Express"@, "Next.js"@],
        ),
        entry_model(
            "go"@,
            "Go 是 Google 开发的编程语言，以其简洁和高并发性能著称。"@,
            seq!["云原生"@, "微服务"@, "网络编程"@, "DevOps工具"@, "区块链"@],
            seq!["Gin"@, "Echo"@, "Kubernetes"@, "Docker"@, "Prometheus"@],
        ),
        entry_model(
            "rust"@,
            "Rust 是一种系统编程语言，注重安全性、并发性和性能。"@,
            seq!["系统编程"@, "WebAssembly"@, "嵌入式"@, "命令行工具"@, "区块链"@],
            seq!["Actix"@, "Rocket"@, "Tokio"@, "Axum"@, "Diesel"@],
        ),
        entry_model(
            "php"@,
            "PHP 是一种服务器端脚本语言，广泛用于 Web 开发。"@,
            seq!["Web开发"@, "CMS系统"@, "电商平台"@, "API开发"@, "博客系统"@],
            seq!["Laravel"@, "Symfony"@, "WordPress"@, "Drupal"@, "Magento"@],
        ),
        entry_model(
            "r"@,
            "R 是一种用于统计计算和图形的编程语言。"@,
            seq!["统计分析"@, "数据可视化"@, "机器学习"@, "生物信息学"@, "金融分析"@],
            seq!["ggplot2"@, "dplyr"@, "tidyr"@, "Shiny"@, "caret"@],
        ),
        entry_model(
            "sql"@,
            "SQL 是用于管理关系数据库的标准语言。"@,
            seq!["数据查询"@, "数据管理"@, "报表生成"@, "数据分析"@, "ETL"@],
            seq!["MySQL"@, "PostgreSQL"@, "Oracle"@, "SQL Server"@, "SQLite"@],
        ),
        entry_model(
            "kotlin"@,
            "Kotlin 是 JetBrains 开发的现代编程语言，与 Java 完全兼容。"@,
            seq!["Android开发"@, "服务端开发"@, "跨平台开发"@, "Web开发"@],
            seq!["Ktor"@, "Spring Boot"@, "Jetpack Compose"@, "Exposed"@],
        ),
        entry_model(
            "visual basic"@,
            "Visual Basic 是微软开发的事件驱动编程语言。"@,
            seq!["Windows应用"@, "Office自动化"@, "数据库应用"@, "快速原型"@],
            seq!["VB.NET"@, "VBA"@, "Visual Studio"@],
        ),
        entry_model(
            "perl"@,
            "Perl 是一种高级、通用的解释型编程语言。"@,
            seq!["文本处理"@, "系统管理"@, "Web开发"@, "网络编程"@, "生物信息学"@],
            seq!["Mojolicious"@, "Dancer"@, "Catalyst"@, "CPAN"@],
        ),
        entry_model(
            "delphi/object pascal"@,
            "Delphi/Object Pascal 是一种面向对象的编程语言。"@,
            seq!["桌面应用"@, "数据库应用"@, "跨平台开发"@, "嵌入式系统"@],
            seq!["FireMonkey"@, "VCL"@, "RAD Studio"@],
        ),
        entry_model(
            "delphi"@,
            "Delphi/Object Pascal 是一种面向对象的编程语言。"@,
            seq!["桌面应用"@, "数据库应用"@, "跨平台开发"@, "嵌入式系统"@],
            seq!["FireMonkey"@, "VCL"@, "RAD Studio"@],
        ),
        entry_model(
            "fortran"@,
            "Fortran 是最早的高级编程语言之一，主要用于科学计算。"@,
            seq!["科学计算"@, "数值分析"@, "高性能计算"@, "气象模拟"@, "物理模拟"@],
            seq!["LAPACK"@, "BLAS"@, "OpenMP"@, "MPI"@],
        ),
        entry_model(
            "matlab"@,
            "MATLAB 是一种用于数值计算的编程语言和环境。"@,
            seq!["数值计算"@, "信号处理"@, "图像处理"@, "控制系统"@, "深度学习"@],
            seq!["Simulink"@, "Image Processing Toolbox"@, "Deep Learning Toolbox"@],
        ),
        entry_model(
            "ada"@,
            "Ada 是一种结构化、静态类型的编程语言，用于高可靠性系统。"@,
            seq!["航空航天"@, "国防系统"@, "铁路系统"@, "医疗设备"@, "嵌入式系统"@],
            seq!["GNAT"@, "SPARK"@, "Ada Web Server"@],
        ),
        entry_model(
            "assembly language"@,
            "汇编语言是一种低级编程语言，与机器码直接对应。"@,
            seq!["操作系统"@, "驱动程序"@, "嵌入式系统"@, "逆向工程"@, "性能优化"@],
            seq!["NASM"@, "MASM"@, "GAS"@],
        ),
        entry_model(
            "assembly"@,
            "汇编语言是一种低级编程语言，与机器码直接对应。"@,
            seq!["操作系统"@, "驱动程序"@, "嵌入式系统"@, "逆向工程"@, "性能优化"@],
            seq!["NASM"@, "MASM"@, "GAS"@],
        ),
        entry_model(
            "scratch"@,
            "Scratch 是一种可视化编程语言，主要用于编程教育。"@,
            seq!["编程教育"@, "游戏开发"@, "动画制作"@, "互动故事"@],
            seq!["Scratch 3.0"@, "ScratchJr"@],
        ),
    ]
}

/// The default metadata for a name the registry does not carry.
pub open spec fn default_detail_model() -> DetailEntryModel {
    entry_model(
        ""@,
        "这是一种流行的编程语言。"@,
        seq!["通用编程"@],
        seq!["暂无"@],
    )
}

fn default_entry() -> (r: DetailEntry)
    ensures
        r@ == default_detail_model(),
{
    entry("", "这是一种流行的编程语言。", sv1("通用编程"), sv1("暂无"))
}

/// The fixed registry as a fresh list, entry for entry the fixed model.
pub fn detail_registry() -> (r: Vec<DetailEntry>)
    ensures
        entry_models(r@) == registry_model(),
{
    let mut v: Vec<DetailEntry> = Vec::new();
    v.push(entry(
        "python",
        "Python 是一种高级、通用的编程语言，以其简洁易读的语法著称。",
        sv5("数据科学", "机器学习", "Web开发", "自动化脚本", "科学计算"),
        sv6("Django", "Flask", "FastAPI", "PyTorch", "TensorFlow", "Pandas"),
    ));
    v.push(entry(
        "c",
        "C 是一种通用的过程式编程语言，广泛用于系统编程和嵌入式开发。",
        sv5("操作系统", "嵌入式系统", "驱动程序", "游戏引擎", "数据库"),
        sv4("Linux Kernel", "SQLite", "Git", "Nginx"),
    ));
    v.push(entry(
        "c++",
        "C++ 是 C 语言的扩展，支持面向对象编程，广泛用于高性能应用。",
        sv5("游戏开发", "系统软件", "浏览器", "数据库", "图形处理"),
        sv4("Qt", "Boost", "Unreal Engine", "OpenCV"),
    ));
    v.push(entry(
        "java",
        "Java 是一种面向对象的编程语言，以其跨平台特性著称。",
        sv5("企业应用", "Android开发", "大数据", "云计算", "微服务"),
        sv5("Spring", "Hibernate", "Maven", "Gradle", "Apache Kafka"),
    ));
    v.push(entry(
        "c#",
        "C# 是微软开发的面向对象编程语言，主要用于 .NET 平台开发。",
        sv5("Windows应用", "游戏开发", "Web服务", "企业软件", "云应用"),
        sv5(".NET Core", "ASP.NET", "Unity", "Xamarin", "Entity Framework"),
    ));
    v.push(entry(
        "javascript",
        "JavaScript 是 Web 开发的核心语言，支持前端和后端开发。",
        sv5("前端开发", "后端开发", "移动应用", "桌面应用", "游戏开发"),
        sv6("React", "Vue.js", "Angular", "Node.js", "Express", "Next.js"),
    ));
    v.push(entry(
        "go",
        "Go 是 Google 开发的编程语言，以其简洁和高并发性能著称。",
        sv5("云原生", "微服务", "网络编程", "DevOps工具", "区块链"),
        sv5("Gin", "Echo", "Kubernetes", "Docker", "Prometheus"),
    ));
    v.push(entry(
        "rust",
        "Rust 是一种系统编程语言，注重安全性、并发性和性能。",
        sv5("系统编程", "WebAssembly", "嵌入式", "命令行工具", "区块链"),
        sv5("Actix", "Rocket", "Tokio", "Axum", "Diesel"),
    ));
    v.push(entry(
        "php",
        "PHP 是一种服务器端脚本语言，广泛用于 Web 开发。",
        sv5("Web开发", "CMS系统", "电商平台", "API开发", "博客系统"),
        sv5("Laravel", "Symfony", "WordPress", "Drupal", "Magento"),
    ));
    v.push(entry(
        "r",
        "R 是一种用于统计计算和图形的编程语言。",
        sv5("统计分析", "数据可视化", "机器学习", "生物信息学", "金融分析"),
        sv5("ggplot2", "dplyr", "tidyr", "Shiny", "caret"),
    ));
    v.push(entry(
        "sql",
        "SQL 是用于管理关系数据库的标准语言。",
        sv5("数据查询", "数据管理", "报表生成", "数据分析", "ETL"),
        sv5("MySQL", "PostgreSQL", "Oracle", "SQL Server", "SQLite"),
    ));
    v.push(entry(
        "kotlin",
        "Kotlin 是 JetBrains 开发的现代编程语言，与 Java 完全兼容。",
        sv4("Android开发", "服务端开发", "跨平台开发", "Web开发"),
        sv4("Ktor", "Spring Boot", "Jetpack Compose", "Exposed"),
    ));
    v.push(entry(
        "visual basic",
        "Visual Basic 是微软开发的事件驱动编程语言。",
        sv4("Windows应用", "Office自动化", "数据库应用", "快速原型"),
        sv3("VB.NET", "VBA", "Visual Studio"),
    ));
    v.push(entry(
        "perl",
        "Perl 是一种高级、通用的解释型编程语言。",
        sv5("文本处理", "系统管理", "Web开发", "网络编程", "生物信息学"),
        sv4("Mojolicious", "Dancer", "Catalyst", "CPAN"),
    ));
    v.push(entry(
        "delphi/object pascal",
        "Delphi/Object Pascal 是一种面向对象的编程语言。",
        sv4("桌面应用", "数据库应用", "跨平台开发", "嵌入式系统"),
        sv3("FireMonkey", "VCL", "RAD Studio"),
    ));
    v.push(entry(
        "delphi",
        "Delphi/Object Pascal 是一种面向对象的编程语言。",
        sv4("桌面应用", "数据库应用", "跨平台开发", "嵌入式系统"),
        sv3("FireMonkey", "VCL", "RAD Studio"),
    ));
    v.push(entry(
        "fortran",
        "Fortran 是最早的高级编程语言之一，主要用于科学计算。",
        sv5("科学计算", "数值分析", "高性能计算", "气象模拟", "物理模拟"),
        sv4("LAPACK", "BLAS", "OpenMP", "MPI"),
    ));
    v.push(entry(
        "matlab",
        "MATLAB 是一种用于数值计算的编程语言和环境。",
        sv5("数值计算", "信号处理", "图像处理", "控制系统", "深度学习"),
        sv3("Simulink", "Image Processing Toolbox", "Deep Learning Toolbox"),
    ));
    v.push(entry(
        "ada",
        "Ada 是一种结构化、静态类型的编程语言，用于高可靠性系统。",
        sv5("航空航天", "国防系统", "铁路系统", "医疗设备", "嵌入式系统"),
        sv3("GNAT", "SPARK", "Ada Web Server"),
    ));
    v.push(entry(
        "assembly language",
        "汇编语言是一种低级编程语言，与机器码直接对应。",
        sv5("操作系统", "驱动程序", "嵌入式系统", "逆向工程", "性能优化"),
        sv3("NASM", "MASM", "GAS"),
    ));
    v.push(entry(
        "assembly",
        "汇编语言是一种低级编程语言，与机器码直接对应。",
        sv5("操作系统", "驱动程序", "嵌入式系统", "逆向工程", "性能优化"),
        sv3("NASM", "MASM", "GAS"),
    ));
    v.push(entry(
        "scratch",
        "Scratch 是一种可视化编程语言，主要用于编程教育。",
        sv4("编程教育", "游戏开发", "动画制作", "互动故事"),
        sv2("Scratch 3.0", "ScratchJr"),
    ));
    proof {
        assert(entry_models(v@) =~= registry_model());
    }
    v
}

/// The first registry entry under the given key, if any.
pub open spec fn lookup_spec(entries: Seq<DetailEntryModel>, key: Seq<char>) -> Option<
    DetailEntryModel,
>
    decreases entries.len(),
{
    if entries.len() == 0 {
        None
    } else if entries[0].key == key {
        Some(entries[0])
    } else {
        lookup_spec(entries.drop_first(), key)
    }
}

proof fn lemma_lookup_skip(entries: Seq<DetailEntryModel>, key: Seq<char>, i: int)
    requires
        0 <= i <= entries.len(),
        forall|j: int| 0 <= j < i ==> #[trigger] entries[j].key != key,
    ensures
        lookup_spec(entries, key) == lookup_spec(entries.skip(i), key),
    decreases i,
{
    if i > 0 {
        lemma_lookup_skip(entries, key, i - 1);
        let tail = entries.skip(i - 1);
        assert(tail.len() > 0);
        assert(tail[0] == entries[i - 1]);
        assert(tail.drop_first() =~= entries.skip(i));
    } else {
        assert(entries.skip(0) =~= entries);
    }
}

/// The index of the first registry entry under the given key, if any.
fn find_entry(entries: &Vec<DetailEntry>, key: &String) -> (r: Option<usize>)
    ensures
        match r {
            Some(i) => i < entries@.len() && lookup_spec(entry_models(entries@), key@) == Some(
                entry_models(entries@)[i as int],
            ),
            None => lookup_spec(entry_models(entries@), key@) is None,
        },
{
    let ghost ms = entry_models(entries@);
    let mut i: usize = 0;
    while i < entries.len()
        invariant
            i <= entries@.len(),
            ms == entry_models(entries@),
            ms.len() == entries@.len(),
            forall|j: int| 0 <= j < i ==> #[trigger] ms[j].key != key@,
        decreases entries@.len() - i,
    {
        if entries[i].key == *key {
            proof {
                lemma_lookup_skip(ms, key@, i as int);
                let tail = ms.skip(i as int);
                assert(tail.len() > 0);
                assert(tail[0] == ms[i as int]);
                assert(tail[0].key == key@);
            }
            return Some(i);
        }
        proof {
            assert(ms[i as int].key != key@);
        }
        i = i + 1;
    }
    proof {
        lemma_lookup_skip(ms, key@, i as int);
        assert(ms.skip(i as int) =~= Seq::<DetailEntryModel>::empty());
    }
    None
}

/// The registry metadata served for a name: the entry under its case-folded
/// form, or the default metadata.
pub open spec fn registry_entry_for(name: Seq<char>) -> DetailEntryModel {
    match lookup_spec(registry_model(), lower_of(name)) {
        Some(e) => e,
        None => default_detail_model(),
    }
}

/// The detail record combining a ranking record with the registry metadata
/// served for the requested name.
pub open spec fn detail_model(name: Seq<char>, lang: LanguageModel) -> LanguageDetailModel {
    let e = registry_entry_for(name);
    LanguageDetailModel {
        name: lang.name,
        rank: lang.rank,
        rating: lang.rating,
        description: e.description,
        use_cases: e.use_cases,
        frameworks: e.frameworks,
    }
}

/// Enrich a ranking record: the record's own name, rank and rating, and the
/// registry metadata under the requested name's case-folded form — the
/// default metadata where the registry does not carry it. Total.
pub fn get_language_detail(name: &str, lang: &Language) -> (r: LanguageDetail)
    ensures
        r@ == detail_model(name@, lang@),
{
    let key = lowercase(name);
    let mut registry = detail_registry();
    let chosen: DetailEntry = match find_entry(&registry, &key) {
        Some(i) => registry.remove(i),
        None => default_entry(),
    };
    LanguageDetail {
        name: lang.name.clone(),
        rank: lang.rank,
        rating: lang.rating.clone(),
        description: chosen.description,
        use_cases: chosen.use_cases,
        frameworks: chosen.frameworks,
    }
}

/// Whether a ranking record answers to a requested name, case-insensitively.
pub open spec fn name_matches(lang: LanguageModel, name: Seq<char>) -> bool {
    lower_of(lang.name) == lower_of(name)
}

/// The index of the first record answering to the name, if any.
pub open spec fn find_spec(ls: Seq<LanguageModel>, name: Seq<char>) -> Option<int>
    decreases ls.len(),
{
    if ls.len() == 0 {
        None
    } else if name_matches(ls[0], name) {
        Some(0)
    } else {
        match find_spec(ls.drop_first(), name) {
            Some(i) => Some(i + 1),
            None => None,
        }
    }
}

proof fn lemma_find_skip(ls: Seq<LanguageModel>, name: Seq<char>, i: int)
    requires
        0 <= i <= ls.len(),
        forall|j: int| 0 <= j < i ==> !name_matches(#[trigger] ls[j], name),
    ensures
        find_spec(ls, name) == match find_spec(ls.skip(i), name) {
            Some(k) => Some(k + i),
            None => None::<int>,
        },
    decreases i,
{
    if i > 0 {
        lemma_find_skip(ls, name, i - 1);
        let tail = ls.skip(i - 1);
        assert(tail.len() > 0);
        assert(tail[0] == ls[i - 1]);
        assert(!name_matches(tail[0], name));
        assert(tail.drop_first() =~= ls.skip(i));
    } else {
        assert(ls.skip(0) =~= ls);
    }
}

/// The index of the first record in the list whose name answers to the
/// requested name case-insensitively, if any.
pub fn find_language(list: &Vec<Language>, name: &str) -> (r: Option<usize>)
    ensures
        match r {
            Some(i) => i < list@.len() && find_spec(models_of(list@), name@) == Some(i as int),
            None => find_spec(models_of(list@), name@) is None,
        },
{
    let ghost ms = models_of(list@);
    let key = lowercase(name);
    let mut i: usize = 0;
    while i < list.len()
        invariant
            i <= list@.len(),
            ms == models_of(list@),
            ms.len() == list@.len(),
            key@ == lower_of(name@),
            forall|j: int| 0 <= j < i ==> !name_matches(#[trigger] ms[j], name@),
        decreases list@.len() - i,
    {
        let folded = lowercase(list[i].name.as_str());
        if folded == key {
            proof {
                assert(name_matches(ms[i as int], name@));
                lemma_find_skip(ms, name@, i as int);
                let tail = ms.skip(i as int);
                assert(tail.len() > 0);
                assert(tail[0] == ms[i as int]);
            }
            return Some(i);
        }
        proof {
            assert(!name_matches(ms[i as int], name@));
        }
        i = i + 1;
    }
    proof {
        lemma_find_skip(ms, name@, i as int);
        assert(ms.skip(i as int) =~= Seq::<LanguageModel>::empty());
    }
    None
}

/// The placeholder record synthesized for a name the list does not carry.
pub open spec fn placeholder_model(name: Seq<char>) -> LanguageModel {
    LanguageModel { rank: 0, prev_rank: 0, name, rating: "N/A"@, change: "N/A"@ }
}

/// The detail served from a ranking list: the first record answering to the
/// name case-insensitively, or the synthesized placeholder, enriched with
/// the registry metadata. There is no not-found outcome.
pub open spec fn detail_from_list_model(name: Seq<char>, ls: Seq<LanguageModel>) -> LanguageDetailModel {
    match find_spec(ls, name) {
        Some(i) => detail_model(name, ls[i]),
        None => detail_model(name, placeholder_model(name)),
    }
}

/// Serve a detail record from a ranking list. Total: a name the list does
/// not carry is answered with a placeholder of rank zero enriched like any
/// other.
pub fn language_detail_from_rankings(name: &str, list: &Vec<Language>) -> (r: LanguageDetail)
    ensures
        r@ == detail_from_list_model(name@, models_of(list@)),
{
    match find_language(list, name) {
        Some(i) => get_language_detail(name, &list[i]),
        None => {
            let placeholder = Language {
                rank: 0,
                prev_rank: 0,
                name: name.to_owned(),
                rating: "N/A".to_owned(),
                change: "N/A".to_owned(),
            };
            get_language_detail(name, &placeholder)
        },
    }
}

proof fn lemma_find_depends_on_fold(ls: Seq<LanguageModel>, a: Seq<char>, b: Seq<char>)
    requires
        lower_of(a) == lower_of(b),
    ensures
        find_spec(ls, a) == find_spec(ls, b),
    decreases ls.len(),
{
    if ls.len() != 0 {
        lemma_find_depends_on_fold(ls.drop_first(), a, b);
    }
}

/// Law: enrichment is case-insensitive — two queries with the same case fold,
/// answered by some record of the list, are served identical detail records.
/// (For a name the list does not answer to, the synthesized placeholder keeps
/// the caller's own spelling.)
pub proof fn lemma_detail_case_insensitive(a: Seq<char>, b: Seq<char>, ls: Seq<LanguageModel>)
    requires
        lower_of(a) == lower_of(b),
        find_spec(ls, a) is Some,
    ensures
        detail_from_list_model(a, ls) == detail_from_list_model(b, ls),
{
    lemma_find_depends_on_fold(ls, a, b);
}

/// Law: a name absent from both the ranking list and the registry is served
/// the synthesized placeholder — rank zero, rating "N/A", the name as
/// requested — with the default description, use cases and frameworks.
pub proof fn lemma_unknown_name_gets_defaults(name: Seq<char>, ls: Seq<LanguageModel>)
    requires
        find_spec(ls, name) is None,
        lookup_spec(registry_model(), lower_of(name)) is None,
    ensures
        detail_from_list_model(name, ls).name == name,
        detail_from_list_model(name, ls).rank == 0,
        detail_from_list_model(name, ls).rating == "N/A"@,
        detail_from_list_model(name, ls).description == default_detail_model().description,
        detail_from_list_model(name, ls).use_cases == default_detail_model().use_cases,
        detail_from_list_model(name, ls).frameworks == default_detail_model().frameworks,
{
}

/// Law: for a query equal to the name of a listed record that no earlier
/// record answers to case-insensitively, the served detail carries exactly
/// that record's name, rank and rating — only the registry's description,
/// use cases and frameworks are added.
pub proof fn lemma_listed_name_keeps_rank(ls: Seq<LanguageModel>, i: int)
    requires
        0 <= i < ls.len(),
        forall|j: int| 0 <= j < i ==> !name_matches(#[trigger] ls[j], ls[i].name),
    ensures
        detail_from_list_model(ls[i].name, ls).name == ls[i].name,
        detail_from_list_model(ls[i].name, ls).rank == ls[i].rank,
        detail_from_list_model(ls[i].name, ls).rating == ls[i].rating,
{
    assert(name_matches(ls[i], ls[i].name));
    lemma_find_skip(ls, ls[i].name, i);
    let tail = ls.skip(i);
    assert(tail.len() > 0);
    assert(tail[0] == ls[i]);
    assert(find_spec(tail, ls[i].name) == Some(0int));
    assert(find_spec(ls, ls[i].name) == Some(i));
}

} // verus!
