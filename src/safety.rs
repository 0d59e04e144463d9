use vstd::prelude::*;
use vstd::string::*;
use crate::model::{texts, SafetyStatus};
use crate::units::{Ratio, RATIO_MAX_DEN, RATIO_MAX_NUM};

verus! {

/// The ten decimal digits, in order.
pub open spec fn digit_chars() -> Seq<char> {
    "0123456789"@
}

/// Decimal notation of a natural number, without leading zeros.
pub open spec fn decimal_text(n: nat) -> Seq<char>
    decreases n,
{
    if n < 10 {
        digit_chars().subrange(n as int, n as int + 1)
    } else {
        decimal_text(n / 10) + digit_chars().subrange((n % 10) as int, (n % 10) as int + 1)
    }
}

/// Writes a natural number in decimal notation.
pub fn decimal_string(n: u128) -> (r: String)
    ensures
        r@ == decimal_text(n as nat),
    decreases n,
{
    let digits = "0123456789";
    proof {
        reveal_strlit("0123456789");
    }
    if n < 10 {
        let d = n as usize;
        String::from_str(digits.substring_char(d, d + 1))
    } else {
        let mut r = decimal_string(n / 10);
        let d = (n % 10) as usize;
        r.append(digits.substring_char(d, d + 1));
        r
    }
}

/// Safety classification of a current `num / den` on a breaker of `breaker`
/// amperes, by its load factor `num / (den * breaker)`: above 0.95 Danger,
/// above 0.80 Warning, else Safe.
pub open spec fn status_of(num: int, den: int, breaker: int) -> SafetyStatus {
    if 20 * num > 19 * (breaker * den) {
        SafetyStatus::Danger
    } else if 5 * num > 4 * (breaker * den) {
        SafetyStatus::Warning
    } else {
        SafetyStatus::Safe
    }
}

/// The load factor `num / (den * breaker)` in whole percent: nearest integer,
/// ties to the even one.
pub open spec fn percent_of(num: int, den: int, breaker: int) -> int {
    let m = 100 * num;
    let q = breaker * den;
    let low = m / q;
    let rem = m % q;
    if 2 * rem > q {
        low + 1
    } else if 2 * rem < q {
        low
    } else {
        low + low % 2
    }
}

pub open spec fn high_usage_text(percent: int) -> Seq<char> {
    "Sistem kapasitesi yüksek kullanım seviyesinde ("@ + decimal_text(percent as nat) + "%)"@
}

/// Warnings for a current `num / den` on a breaker of `breaker` amperes.
pub open spec fn warnings_of(num: int, den: int, breaker: int) -> Seq<Seq<char>> {
    match status_of(num, den, breaker) {
        SafetyStatus::Danger => seq![
            "KRİTİK: Sistem aşırı yüklü durumda"@,
            "Aşırı ısınma ve yangın riski mevcut"@,
        ],
        SafetyStatus::Warning => seq![high_usage_text(percent_of(num, den, breaker))],
        SafetyStatus::Safe => seq![],
    }
}

/// Recommendations for a current `num / den` on a breaker of `breaker` amperes
/// and a total load of `kw_num / kw_den` kilowatts, in the order the rules apply:
/// the one of the status, a three-phase hint above 10 kW, a load-balancing hint
/// above 5 kW on a safe circuit, and two general notes when there is no warning.
pub open spec fn recommendations_of(
    num: int,
    den: int,
    breaker: int,
    kw_num: int,
    kw_den: int,
) -> Seq<Seq<char>> {
    let status = status_of(num, den, breaker);
    let by_status: Seq<Seq<char>> = match status {
        SafetyStatus::Danger => seq!["ACİL: Elektrik sistemini yeniden boyutlandırın"@],
        SafetyStatus::Warning => seq!["Daha yüksek kapasiteli sigorta ve kablo kullanımı önerilir"@],
        SafetyStatus::Safe => seq![],
    };
    let three_phase: Seq<Seq<char>> = if kw_num > 10 * kw_den {
        seq!["Bu yük için 3 fazlı sistem değerlendirmesi önerilir"@]
    } else {
        seq![]
    };
    let balancing: Seq<Seq<char>> = if kw_num > 5 * kw_den && status == SafetyStatus::Safe {
        seq!["Yük dengeleme için devre sayısını artırmayı düşünün"@]
    } else {
        seq![]
    };
    let general: Seq<Seq<char>> = if warnings_of(num, den, breaker).len() == 0 {
        seq![
            "Sistem güvenli çalışma parametreleri içinde"@,
            "Yıllık periyodik kontrol önerilir"@,
        ]
    } else {
        seq![]
    };
    by_status + three_phase + balancing + general
}

/// Classifies the load of a current on a breaker and a total load in kilowatts,
/// with its warnings and recommendations. The breaker rating must be positive.
pub fn assess_safety(current: &Ratio, breaker_amps: u32, total_load_kw: &Ratio) -> (r: (
    SafetyStatus,
    Vec<String>,
    Vec<String>,
))
    requires
        current.wf(),
        total_load_kw.wf(),
        breaker_amps > 0,
    ensures
        r.0 == status_of(current.num as int, current.den as int, breaker_amps as int),
        texts(r.1@) == warnings_of(current.num as int, current.den as int, breaker_amps as int),
        texts(r.2@) == recommendations_of(
            current.num as int,
            current.den as int,
            breaker_amps as int,
            total_load_kw.num as int,
            total_load_kw.den as int,
        ),
{
    let num = current.num;
    let den = current.den;
    let b = breaker_amps as u128;
    assert(b * den <= 0xffff_ffff * RATIO_MAX_DEN && b * den > 0) by (nonlinear_arith)
        requires
            0 < b <= 0xffff_ffff,
            0 < den <= RATIO_MAX_DEN,
    ;
    let capacity = b * den;
    let mut warnings: Vec<String> = Vec::new();
    let mut recommendations: Vec<String> = Vec::new();
    let mut status = SafetyStatus::Safe;
    if 20 * num > 19 * capacity {
        status = SafetyStatus::Danger;
        warnings.push(String::from_str("KRİTİK: Sistem aşırı yüklü durumda"));
        warnings.push(String::from_str("Aşırı ısınma ve yangın riski mevcut"));
        recommendations.push(String::from_str("ACİL: Elektrik sistemini yeniden boyutlandırın"));
    } else if 5 * num > 4 * capacity {
        status = SafetyStatus::Warning;
        let m = 100 * num;
        let low = m / capacity;
        let rem = m % capacity;
        let percent = if 2 * rem > capacity {
            low + 1
        } else if 2 * rem < capacity {
            low
        } else {
            low + low % 2
        };
        let mut text = String::from_str("Sistem kapasitesi yüksek kullanım seviyesinde (");
        let digits = decimal_string(percent);
        text.append(digits.as_str());
        text.append("%)");
        assert(percent == percent_of(num as int, den as int, breaker_amps as int));
        assert(text@ == high_usage_text(percent as int));
        warnings.push(text);
        recommendations.push(
            String::from_str("Daha yüksek kapasiteli sigorta ve kablo kullanımı önerilir"),
        );
    }
    if total_load_kw.num > 10 * total_load_kw.den {
        recommendations.push(String::from_str("Bu yük için 3 fazlı sistem değerlendirmesi önerilir"));
    }
    if total_load_kw.num > 5 * total_load_kw.den && status == SafetyStatus::Safe {
        recommendations.push(String::from_str("Yük dengeleme için devre sayısını artırmayı düşünün"));
    }
    if warnings.len() == 0 {
        recommendations.push(String::from_str("Sistem güvenli çalışma parametreleri içinde"));
        recommendations.push(String::from_str("Yıllık periyodik kontrol önerilir"));
    }
    proof {
        assert(texts(warnings@) =~= warnings_of(num as int, den as int, breaker_amps as int));
        assert(texts(recommendations@) =~= recommendations_of(
            num as int,
            den as int,
            breaker_amps as int,
            total_load_kw.num as int,
            total_load_kw.den as int,
        ));
    }
    (status, warnings, recommendations)
}

} // verus!
