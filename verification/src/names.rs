//! Localized name tables: months, weekdays, seasons and calendar titles
//! for each supported language.

use vstd::prelude::*;

verus! {

pub open spec fn spec_gregorian_month_name_en(i: int) -> Seq<char> {
    if i == 0 {
        "January"@
    } else if i == 1 {
        "February"@
    } else if i == 2 {
        "March"@
    } else if i == 3 {
        "April"@
    } else if i == 4 {
        "May"@
    } else if i == 5 {
        "June"@
    } else if i == 6 {
        "July"@
    } else if i == 7 {
        "August"@
    } else if i == 8 {
        "September"@
    } else if i == 9 {
        "October"@
    } else if i == 10 {
        "November"@
    } else {
        "December"@
    }
}

pub fn gregorian_month_name_en(i: usize) -> (r: String)
    requires
        i < 12,
    ensures
        r@ == spec_gregorian_month_name_en(i as int),
{
    if i == 0 {
        String::from_str("January")
    } else if i == 1 {
        String::from_str("February")
    } else if i == 2 {
        String::from_str("March")
    } else if i == 3 {
        String::from_str("April")
    } else if i == 4 {
        String::from_str("May")
    } else if i == 5 {
        String::from_str("June")
    } else if i == 6 {
        String::from_str("July")
    } else if i == 7 {
        String::from_str("August")
    } else if i == 8 {
        String::from_str("September")
    } else if i == 9 {
        String::from_str("October")
    } else if i == 10 {
        String::from_str("November")
    } else {
        String::from_str("December")
    }
}

pub open spec fn spec_gregorian_month_name_fa(i: int) -> Seq<char> {
    if i == 0 {
        "ژانویه"@
    } else if i == 1 {
        "فوریه"@
    } else if i == 2 {
        "مارس"@
    } else if i == 3 {
        "آوریل"@
    } else if i == 4 {
        "می"@
    } else if i == 5 {
        "جون"@
    } else if i == 6 {
        "جولای"@
    } else if i == 7 {
        "آگوست"@
    } else if i == 8 {
        "سپتامبر"@
    } else if i == 9 {
        "اکتبر"@
    } else if i == 10 {
        "نوامبر"@
    } else {
        "دسامبر"@
    }
}

pub fn gregorian_month_name_fa(i: usize) -> (r: String)
    requires
        i < 12,
    ensures
        r@ == spec_gregorian_month_name_fa(i as int),
{
    if i == 0 {
        String::from_str("ژانویه")
    } else if i == 1 {
        String::from_str("فوریه")
    } else if i == 2 {
        String::from_str("مارس")
    } else if i == 3 {
        String::from_str("آوریل")
    } else if i == 4 {
        String::from_str("می")
    } else if i == 5 {
        String::from_str("جون")
    } else if i == 6 {
        String::from_str("جولای")
    } else if i == 7 {
        String::from_str("آگوست")
    } else if i == 8 {
        String::from_str("سپتامبر")
    } else if i == 9 {
        String::from_str("اکتبر")
    } else if i == 10 {
        String::from_str("نوامبر")
    } else {
        String::from_str("دسامبر")
    }
}

pub open spec fn spec_gregorian_month_name_zh(i: int) -> Seq<char> {
    if i == 0 {
        "一月"@
    } else if i == 1 {
        "二月"@
    } else if i == 2 {
        "三月"@
    } else if i == 3 {
        "四月"@
    } else if i == 4 {
        "五月"@
    } else if i == 5 {
        "六月"@
    } else if i == 6 {
        "七月"@
    } else if i == 7 {
        "八月"@
    } else if i == 8 {
        "九月"@
    } else if i == 9 {
        "十月"@
    } else if i == 10 {
        "十一月"@
    } else {
        "十二月"@
    }
}

pub fn gregorian_month_name_zh(i: usize) -> (r: String)
    requires
        i < 12,
    ensures
        r@ == spec_gregorian_month_name_zh(i as int),
{
    if i == 0 {
        String::from_str("一月")
    } else if i == 1 {
        String::from_str("二月")
    } else if i == 2 {
        String::from_str("三月")
    } else if i == 3 {
        String::from_str("四月")
    } else if i == 4 {
        String::from_str("五月")
    } else if i == 5 {
        String::from_str("六月")
    } else if i == 6 {
        String::from_str("七月")
    } else if i == 7 {
        String::from_str("八月")
    } else if i == 8 {
        String::from_str("九月")
    } else if i == 9 {
        String::from_str("十月")
    } else if i == 10 {
        String::from_str("十一月")
    } else {
        String::from_str("十二月")
    }
}

pub open spec fn spec_gregorian_month_name_ar(i: int) -> Seq<char> {
    if i == 0 {
        "يَنايِر"@
    } else if i == 1 {
        "فِبْرايِر"@
    } else if i == 2 {
        "مارِس"@
    } else if i == 3 {
        "أبْريل"@
    } else if i == 4 {
        "مايو"@
    } else if i == 5 {
        "يُونِيُو"@
    } else if i == 6 {
        "يُولِيُو"@
    } else if i == 7 {
        "أغُسْطُس"@
    } else if i == 8 {
        "سِبْتَمْبِر"@
    } else if i == 9 {
        "أُكْتوبِر"@
    } else if i == 10 {
        "نُوفَمْبِر"@
    } else {
        "دِيسَمْبِر"@
    }
}

pub fn gregorian_month_name_ar(i: usize) -> (r: String)
    requires
        i < 12,
    ensures
        r@ == spec_gregorian_month_name_ar(i as int),
{
    if i == 0 {
        String::from_str("يَنايِر")
    } else if i == 1 {
        String::from_str("فِبْرايِر")
    } else if i == 2 {
        String::from_str("مارِس")
    } else if i == 3 {
        String::from_str("أبْريل")
    } else if i == 4 {
        String::from_str("مايو")
    } else if i == 5 {
        String::from_str("يُونِيُو")
    } else if i == 6 {
        String::from_str("يُولِيُو")
    } else if i == 7 {
        String::from_str("أغُسْطُس")
    } else if i == 8 {
        String::from_str("سِبْتَمْبِر")
    } else if i == 9 {
        String::from_str("أُكْتوبِر")
    } else if i == 10 {
        String::from_str("نُوفَمْبِر")
    } else {
        String::from_str("دِيسَمْبِر")
    }
}

pub open spec fn spec_arabic_month_name_en(i: int) -> Seq<char> {
    if i == 0 {
        "Muharram"@
    } else if i == 1 {
        "Safar"@
    } else if i == 2 {
        "Rabi’ al-Awwal"@
    } else if i == 3 {
        "Rabi’ al-Thani"@
    } else if i == 4 {
        "Jumada al-Awwal"@
    } else if i == 5 {
        "Jumada al-Thani"@
    } else if i == 6 {
        "Rajab"@
    } else if i == 7 {
        "Sha’ban"@
    } else if i == 8 {
        "Ramadan"@
    } else if i == 9 {
        "Shawwal"@
    } else if i == 10 {
        "Dhu al-Qi’dah"@
    } else {
        "Dhu al-Hijjah"@
    }
}

pub fn arabic_month_name_en(i: usize) -> (r: String)
    requires
        i < 12,
    ensures
        r@ == spec_arabic_month_name_en(i as int),
{
    if i == 0 {
        String::from_str("Muharram")
    } else if i == 1 {
        String::from_str("Safar")
    } else if i == 2 {
        String::from_str("Rabi’ al-Awwal")
    } else if i == 3 {
        String::from_str("Rabi’ al-Thani")
    } else if i == 4 {
        String::from_str("Jumada al-Awwal")
    } else if i == 5 {
        String::from_str("Jumada al-Thani")
    } else if i == 6 {
        String::from_str("Rajab")
    } else if i == 7 {
        String::from_str("Sha’ban")
    } else if i == 8 {
        String::from_str("Ramadan")
    } else if i == 9 {
        String::from_str("Shawwal")
    } else if i == 10 {
        String::from_str("Dhu al-Qi’dah")
    } else {
        String::from_str("Dhu al-Hijjah")
    }
}

pub open spec fn spec_arabic_month_name_ar(i: int) -> Seq<char> {
    if i == 0 {
        "مُحَرَّم"@
    } else if i == 1 {
        "صَفَر"@
    } else if i == 2 {
        "رَبِيعُ الأَوَّلِ"@
    } else if i == 3 {
        "رَبِيعُ الثَّانِي"@
    } else if i == 4 {
        "جُمَادَىٰ الأُولَىٰ"@
    } else if i == 5 {
        "جُمَادَىٰ الآخِرَة"@
    } else if i == 6 {
        "رَجَب"@
    } else if i == 7 {
        "شَعْبَان"@
    } else if i == 8 {
        "رَمَضَان"@
    } else if i == 9 {
        "شَوَّال"@
    } else if i == 10 {
        "ذُو القَعْدَة"@
    } else {
        "ذُو الحِجَّة"@
    }
}

pub fn arabic_month_name_ar(i: usize) -> (r: String)
    requires
        i < 12,
    ensures
        r@ == spec_arabic_month_name_ar(i as int),
{
    if i == 0 {
        String::from_str("مُحَرَّم")
    } else if i == 1 {
        String::from_str("صَفَر")
    } else if i == 2 {
        String::from_str("رَبِيعُ الأَوَّلِ")
    } else if i == 3 {
        String::from_str("رَبِيعُ الثَّانِي")
    } else if i == 4 {
        String::from_str("جُمَادَىٰ الأُولَىٰ")
    } else if i == 5 {
        String::from_str("جُمَادَىٰ الآخِرَة")
    } else if i == 6 {
        String::from_str("رَجَب")
    } else if i == 7 {
        String::from_str("شَعْبَان")
    } else if i == 8 {
        String::from_str("رَمَضَان")
    } else if i == 9 {
        String::from_str("شَوَّال")
    } else if i == 10 {
        String::from_str("ذُو القَعْدَة")
    } else {
        String::from_str("ذُو الحِجَّة")
    }
}

pub open spec fn spec_arabic_month_name_fa(i: int) -> Seq<char> {
    if i == 0 {
        "محرم"@
    } else if i == 1 {
        "صفر"@
    } else if i == 2 {
        "ربیع الاول"@
    } else if i == 3 {
        "ربیع الثانی"@
    } else if i == 4 {
        "جمادی الاول"@
    } else if i == 5 {
        "جمادی الثانی"@
    } else if i == 6 {
        "رجب"@
    } else if i == 7 {
        "شعبان"@
    } else if i == 8 {
        "رمضان"@
    } else if i == 9 {
        "شوال"@
    } else if i == 10 {
        "ذیقعده"@
    } else {
        "ذیحجه"@
    }
}

pub fn arabic_month_name_fa(i: usize) -> (r: String)
    requires
        i < 12,
    ensures
        r@ == spec_arabic_month_name_fa(i as int),
{
    if i == 0 {
        String::from_str("محرم")
    } else if i == 1 {
        String::from_str("صفر")
    } else if i == 2 {
        String::from_str("ربیع الاول")
    } else if i == 3 {
        String::from_str("ربیع الثانی")
    } else if i == 4 {
        String::from_str("جمادی الاول")
    } else if i == 5 {
        String::from_str("جمادی الثانی")
    } else if i == 6 {
        String::from_str("رجب")
    } else if i == 7 {
        String::from_str("شعبان")
    } else if i == 8 {
        String::from_str("رمضان")
    } else if i == 9 {
        String::from_str("شوال")
    } else if i == 10 {
        String::from_str("ذیقعده")
    } else {
        String::from_str("ذیحجه")
    }
}

pub open spec fn spec_chinese_month_name_zh(i: int) -> Seq<char> {
    if i == 0 {
        "正月"@
    } else if i == 1 {
        "二月"@
    } else if i == 2 {
        "三月"@
    } else if i == 3 {
        "四月"@
    } else if i == 4 {
        "五月"@
    } else if i == 5 {
        "六月"@
    } else if i == 6 {
        "七月"@
    } else if i == 7 {
        "八月"@
    } else if i == 8 {
        "九月"@
    } else if i == 9 {
        "十月"@
    } else if i == 10 {
        "冬月"@
    } else {
        "腊月"@
    }
}

pub fn chinese_month_name_zh(i: usize) -> (r: String)
    requires
        i < 12,
    ensures
        r@ == spec_chinese_month_name_zh(i as int),
{
    if i == 0 {
        String::from_str("正月")
    } else if i == 1 {
        String::from_str("二月")
    } else if i == 2 {
        String::from_str("三月")
    } else if i == 3 {
        String::from_str("四月")
    } else if i == 4 {
        String::from_str("五月")
    } else if i == 5 {
        String::from_str("六月")
    } else if i == 6 {
        String::from_str("七月")
    } else if i == 7 {
        String::from_str("八月")
    } else if i == 8 {
        String::from_str("九月")
    } else if i == 9 {
        String::from_str("十月")
    } else if i == 10 {
        String::from_str("冬月")
    } else {
        String::from_str("腊月")
    }
}

pub open spec fn spec_chinese_month_name_en(i: int) -> Seq<char> {
    if i == 0 {
        "1st-Lunar-Month"@
    } else if i == 1 {
        "2nd-Lunar-Month"@
    } else if i == 2 {
        "3rd-Lunar-Month"@
    } else if i == 3 {
        "4th-Lunar-Month"@
    } else if i == 4 {
        "5th-Lunar-Month"@
    } else if i == 5 {
        "6th-Lunar-Month"@
    } else if i == 6 {
        "7th-Lunar-Month"@
    } else if i == 7 {
        "8th-Lunar-Month"@
    } else if i == 8 {
        "9th-Lunar-Month"@
    } else if i == 9 {
        "10th-Lunar-Month"@
    } else if i == 10 {
        "11th-Lunar-Month"@
    } else {
        "12th-Lunar-Month"@
    }
}

pub fn chinese_month_name_en(i: usize) -> (r: String)
    requires
        i < 12,
    ensures
        r@ == spec_chinese_month_name_en(i as int),
{
    if i == 0 {
        String::from_str("1st-Lunar-Month")
    } else if i == 1 {
        String::from_str("2nd-Lunar-Month")
    } else if i == 2 {
        String::from_str("3rd-Lunar-Month")
    } else if i == 3 {
        String::from_str("4th-Lunar-Month")
    } else if i == 4 {
        String::from_str("5th-Lunar-Month")
    } else if i == 5 {
        String::from_str("6th-Lunar-Month")
    } else if i == 6 {
        String::from_str("7th-Lunar-Month")
    } else if i == 7 {
        String::from_str("8th-Lunar-Month")
    } else if i == 8 {
        String::from_str("9th-Lunar-Month")
    } else if i == 9 {
        String::from_str("10th-Lunar-Month")
    } else if i == 10 {
        String::from_str("11th-Lunar-Month")
    } else {
        String::from_str("12th-Lunar-Month")
    }
}

pub open spec fn spec_persian_month_name_en(i: int) -> Seq<char> {
    if i == 0 {
        "Farvardin"@
    } else if i == 1 {
        "Ordibehesht"@
    } else if i == 2 {
        "Khordad"@
    } else if i == 3 {
        "Tir"@
    } else if i == 4 {
        "Mordad"@
    } else if i == 5 {
        "Shahrivar"@
    } else if i == 6 {
        "Mehr"@
    } else if i == 7 {
        "Aban"@
    } else if i == 8 {
        "Azar"@
    } else if i == 9 {
        "Dey"@
    } else if i == 10 {
        "Bahman"@
    } else {
        "Esfand"@
    }
}

pub fn persian_month_name_en(i: usize) -> (r: String)
    requires
        i < 12,
    ensures
        r@ == spec_persian_month_name_en(i as int),
{
    if i == 0 {
        String::from_str("Farvardin")
    } else if i == 1 {
        String::from_str("Ordibehesht")
    } else if i == 2 {
        String::from_str("Khordad")
    } else if i == 3 {
        String::from_str("Tir")
    } else if i == 4 {
        String::from_str("Mordad")
    } else if i == 5 {
        String::from_str("Shahrivar")
    } else if i == 6 {
        String::from_str("Mehr")
    } else if i == 7 {
        String::from_str("Aban")
    } else if i == 8 {
        String::from_str("Azar")
    } else if i == 9 {
        String::from_str("Dey")
    } else if i == 10 {
        String::from_str("Bahman")
    } else {
        String::from_str("Esfand")
    }
}

pub open spec fn spec_persian_month_name_fa(i: int) -> Seq<char> {
    if i == 0 {
        "فروردین"@
    } else if i == 1 {
        "اردیبهشت"@
    } else if i == 2 {
        "خرداد"@
    } else if i == 3 {
        "تیر"@
    } else if i == 4 {
        "مرداد"@
    } else if i == 5 {
        "شهریور"@
    } else if i == 6 {
        "مهر"@
    } else if i == 7 {
        "آبان"@
    } else if i == 8 {
        "آذر"@
    } else if i == 9 {
        "دی"@
    } else if i == 10 {
        "بهمن"@
    } else {
        "اسفند"@
    }
}

pub fn persian_month_name_fa(i: usize) -> (r: String)
    requires
        i < 12,
    ensures
        r@ == spec_persian_month_name_fa(i as int),
{
    if i == 0 {
        String::from_str("فروردین")
    } else if i == 1 {
        String::from_str("اردیبهشت")
    } else if i == 2 {
        String::from_str("خرداد")
    } else if i == 3 {
        String::from_str("تیر")
    } else if i == 4 {
        String::from_str("مرداد")
    } else if i == 5 {
        String::from_str("شهریور")
    } else if i == 6 {
        String::from_str("مهر")
    } else if i == 7 {
        String::from_str("آبان")
    } else if i == 8 {
        String::from_str("آذر")
    } else if i == 9 {
        String::from_str("دی")
    } else if i == 10 {
        String::from_str("بهمن")
    } else {
        String::from_str("اسفند")
    }
}

pub open spec fn spec_season_name_en(i: int) -> Seq<char> {
    if i == 0 {
        "Spring"@
    } else if i == 1 {
        "Summer"@
    } else if i == 2 {
        "Autumn"@
    } else {
        "Winter"@
    }
}

pub fn season_name_en(i: usize) -> (r: String)
    requires
        i < 4,
    ensures
        r@ == spec_season_name_en(i as int),
{
    if i == 0 {
        String::from_str("Spring")
    } else if i == 1 {
        String::from_str("Summer")
    } else if i == 2 {
        String::from_str("Autumn")
    } else {
        String::from_str("Winter")
    }
}

pub open spec fn spec_season_name_fa(i: int) -> Seq<char> {
    if i == 0 {
        "بهار"@
    } else if i == 1 {
        "تابستان"@
    } else if i == 2 {
        "پاییز"@
    } else {
        "زمستان"@
    }
}

pub fn season_name_fa(i: usize) -> (r: String)
    requires
        i < 4,
    ensures
        r@ == spec_season_name_fa(i as int),
{
    if i == 0 {
        String::from_str("بهار")
    } else if i == 1 {
        String::from_str("تابستان")
    } else if i == 2 {
        String::from_str("پاییز")
    } else {
        String::from_str("زمستان")
    }
}

pub open spec fn spec_season_name_zh(i: int) -> Seq<char> {
    if i == 0 {
        "春季"@
    } else if i == 1 {
        "夏季"@
    } else if i == 2 {
        "秋季"@
    } else {
        "冬季"@
    }
}

pub fn season_name_zh(i: usize) -> (r: String)
    requires
        i < 4,
    ensures
        r@ == spec_season_name_zh(i as int),
{
    if i == 0 {
        String::from_str("春季")
    } else if i == 1 {
        String::from_str("夏季")
    } else if i == 2 {
        String::from_str("秋季")
    } else {
        String::from_str("冬季")
    }
}

pub open spec fn spec_season_name_ar(i: int) -> Seq<char> {
    if i == 0 {
        "فصل الربیع"@
    } else if i == 1 {
        "فصل الصیف"@
    } else if i == 2 {
        "فصل الخریف"@
    } else {
        "فصل الشتاء"@
    }
}

pub fn season_name_ar(i: usize) -> (r: String)
    requires
        i < 4,
    ensures
        r@ == spec_season_name_ar(i as int),
{
    if i == 0 {
        String::from_str("فصل الربیع")
    } else if i == 1 {
        String::from_str("فصل الصیف")
    } else if i == 2 {
        String::from_str("فصل الخریف")
    } else {
        String::from_str("فصل الشتاء")
    }
}

pub open spec fn spec_weekday_name_full_en(i: int) -> Seq<char> {
    if i == 0 {
        "Thursday"@
    } else if i == 1 {
        "Friday"@
    } else if i == 2 {
        "Saturday"@
    } else if i == 3 {
        "Sunday"@
    } else if i == 4 {
        "Monday"@
    } else if i == 5 {
        "Tuesday"@
    } else {
        "Wednesday"@
    }
}

pub fn weekday_name_full_en(i: usize) -> (r: String)
    requires
        i < 7,
    ensures
        r@ == spec_weekday_name_full_en(i as int),
{
    if i == 0 {
        String::from_str("Thursday")
    } else if i == 1 {
        String::from_str("Friday")
    } else if i == 2 {
        String::from_str("Saturday")
    } else if i == 3 {
        String::from_str("Sunday")
    } else if i == 4 {
        String::from_str("Monday")
    } else if i == 5 {
        String::from_str("Tuesday")
    } else {
        String::from_str("Wednesday")
    }
}

pub open spec fn spec_weekday_name_half_cap_en(i: int) -> Seq<char> {
    if i == 0 {
        "THU"@
    } else if i == 1 {
        "FRI"@
    } else if i == 2 {
        "SAT"@
    } else if i == 3 {
        "SUN"@
    } else if i == 4 {
        "MON"@
    } else if i == 5 {
        "TUE"@
    } else {
        "WED"@
    }
}

pub fn weekday_name_half_cap_en(i: usize) -> (r: String)
    requires
        i < 7,
    ensures
        r@ == spec_weekday_name_half_cap_en(i as int),
{
    if i == 0 {
        String::from_str("THU")
    } else if i == 1 {
        String::from_str("FRI")
    } else if i == 2 {
        String::from_str("SAT")
    } else if i == 3 {
        String::from_str("SUN")
    } else if i == 4 {
        String::from_str("MON")
    } else if i == 5 {
        String::from_str("TUE")
    } else {
        String::from_str("WED")
    }
}

pub open spec fn spec_weekday_name_full_fa(i: int) -> Seq<char> {
    if i == 0 {
        "پنج شنبه"@
    } else if i == 1 {
        "جمعه"@
    } else if i == 2 {
        "شنبه"@
    } else if i == 3 {
        "یک شنبه"@
    } else if i == 4 {
        "دوشنبه"@
    } else if i == 5 {
        "سه شنبه"@
    } else {
        "چهارشنبه"@
    }
}

pub fn weekday_name_full_fa(i: usize) -> (r: String)
    requires
        i < 7,
    ensures
        r@ == spec_weekday_name_full_fa(i as int),
{
    if i == 0 {
        String::from_str("پنج شنبه")
    } else if i == 1 {
        String::from_str("جمعه")
    } else if i == 2 {
        String::from_str("شنبه")
    } else if i == 3 {
        String::from_str("یک شنبه")
    } else if i == 4 {
        String::from_str("دوشنبه")
    } else if i == 5 {
        String::from_str("سه شنبه")
    } else {
        String::from_str("چهارشنبه")
    }
}

pub open spec fn spec_weekday_name_full_ar(i: int) -> Seq<char> {
    if i == 0 {
        "الخميس"@
    } else if i == 1 {
        "الجمعه"@
    } else if i == 2 {
        "السبت"@
    } else if i == 3 {
        "الأحد"@
    } else if i == 4 {
        "الأثنين"@
    } else if i == 5 {
        "الثلاثاء"@
    } else {
        "الأربعاء"@
    }
}

pub fn weekday_name_full_ar(i: usize) -> (r: String)
    requires
        i < 7,
    ensures
        r@ == spec_weekday_name_full_ar(i as int),
{
    if i == 0 {
        String::from_str("الخميس")
    } else if i == 1 {
        String::from_str("الجمعه")
    } else if i == 2 {
        String::from_str("السبت")
    } else if i == 3 {
        String::from_str("الأحد")
    } else if i == 4 {
        String::from_str("الأثنين")
    } else if i == 5 {
        String::from_str("الثلاثاء")
    } else {
        String::from_str("الأربعاء")
    }
}

pub open spec fn spec_weekday_name_full_cn(i: int) -> Seq<char> {
    if i == 0 {
        "星期四"@
    } else if i == 1 {
        "星期五"@
    } else if i == 2 {
        "星期六"@
    } else if i == 3 {
        "星期日"@
    } else if i == 4 {
        "星期一"@
    } else if i == 5 {
        "星期二"@
    } else {
        "星期三"@
    }
}

pub fn weekday_name_full_cn(i: usize) -> (r: String)
    requires
        i < 7,
    ensures
        r@ == spec_weekday_name_full_cn(i as int),
{
    if i == 0 {
        String::from_str("星期四")
    } else if i == 1 {
        String::from_str("星期五")
    } else if i == 2 {
        String::from_str("星期六")
    } else if i == 3 {
        String::from_str("星期日")
    } else if i == 4 {
        String::from_str("星期一")
    } else if i == 5 {
        String::from_str("星期二")
    } else {
        String::from_str("星期三")
    }
}

pub open spec fn spec_gregorian_calendar_name_en() -> Seq<char> {
    "Gregorian Calendar"@
}

pub fn gregorian_calendar_name_en() -> (r: String)
    ensures
        r@ == spec_gregorian_calendar_name_en(),
{
    String::from_str("Gregorian Calendar")
}

pub open spec fn spec_gregorian_calendar_name_fa() -> Seq<char> {
    "تقویم میلادی"@
}

pub fn gregorian_calendar_name_fa() -> (r: String)
    ensures
        r@ == spec_gregorian_calendar_name_fa(),
{
    String::from_str("تقویم میلادی")
}

pub open spec fn spec_gregorian_calendar_name_zh() -> Seq<char> {
    "公历"@
}

pub fn gregorian_calendar_name_zh() -> (r: String)
    ensures
        r@ == spec_gregorian_calendar_name_zh(),
{
    String::from_str("公历")
}

pub open spec fn spec_gregorian_calendar_name_ar() -> Seq<char> {
    "التقويم الميلادي"@
}

pub fn gregorian_calendar_name_ar() -> (r: String)
    ensures
        r@ == spec_gregorian_calendar_name_ar(),
{
    String::from_str("التقويم الميلادي")
}

pub open spec fn spec_persian_calendar_name_en() -> Seq<char> {
    "Persian Calendar"@
}

pub fn persian_calendar_name_en() -> (r: String)
    ensures
        r@ == spec_persian_calendar_name_en(),
{
    String::from_str("Persian Calendar")
}

pub open spec fn spec_persian_calendar_name_fa() -> Seq<char> {
    "تقویم هجری شمسی"@
}

pub fn persian_calendar_name_fa() -> (r: String)
    ensures
        r@ == spec_persian_calendar_name_fa(),
{
    String::from_str("تقویم هجری شمسی")
}

pub open spec fn spec_chinese_calendar_name_en() -> Seq<char> {
    "Chinese Calendar"@
}

pub fn chinese_calendar_name_en() -> (r: String)
    ensures
        r@ == spec_chinese_calendar_name_en(),
{
    String::from_str("Chinese Calendar")
}

pub open spec fn spec_chinese_calendar_name_zh() -> Seq<char> {
    "农历"@
}

pub fn chinese_calendar_name_zh() -> (r: String)
    ensures
        r@ == spec_chinese_calendar_name_zh(),
{
    String::from_str("农历")
}

pub open spec fn spec_arabic_calendar_name_en() -> Seq<char> {
    "Arabic Calendar"@
}

pub fn arabic_calendar_name_en() -> (r: String)
    ensures
        r@ == spec_arabic_calendar_name_en(),
{
    String::from_str("Arabic Calendar")
}

pub open spec fn spec_arabic_calendar_name_ar() -> Seq<char> {
    "التقويم الهجري"@
}

pub fn arabic_calendar_name_ar() -> (r: String)
    ensures
        r@ == spec_arabic_calendar_name_ar(),
{
    String::from_str("التقويم الهجري")
}

pub open spec fn spec_arabic_calendar_name_fa() -> Seq<char> {
    "تقویم هجری قمری"@
}

pub fn arabic_calendar_name_fa() -> (r: String)
    ensures
        r@ == spec_arabic_calendar_name_fa(),
{
    String::from_str("تقویم هجری قمری")
}

pub open spec fn spec_chinese_leap_month_prefix_zh() -> Seq<char> {
    "闰"@
}

pub fn chinese_leap_month_prefix_zh() -> (r: String)
    ensures
        r@ == spec_chinese_leap_month_prefix_zh(),
{
    String::from_str("闰")
}

pub open spec fn spec_chinese_leap_month_prefix_en() -> Seq<char> {
    "Leap-"@
}

pub fn chinese_leap_month_prefix_en() -> (r: String)
    ensures
        r@ == spec_chinese_leap_month_prefix_en(),
{
    String::from_str("Leap-")
}

} // verus!
