//! Keyboard shortcut equivalents for macOS keyboard layouts.
//!
//! On some keyboards (German QWERTZ, for instance) the full ASCII range cannot
//! be typed without the option key, so some built-in shortcuts are unreachable.
//! macOS moves such shortcuts to keys that can be typed; for each layout that
//! needs it, the table below pairs each ASCII character of a shortcut with the
//! character that takes its place on that layout.
use vstd::prelude::*;
use vstd::string::StrSliceExecFns;

use crate::text::str_eq;

verus! {

/// The two strings of the table for `layout`: the shortcut characters and,
/// position by position, what they are typed as on that layout.
pub open spec fn layout_table(layout: Seq<char>) -> Option<(Seq<char>, Seq<char>)> {
    if layout == "com.apple.keylayout.Welsh"@ {
        Some(("#"@, "£"@))
    } else if layout == "com.apple.keylayout.Turkmen"@ {
        Some(("qc]Q`|[XV\\^v~Cx}{"@, "äçöÄžŞňÜÝş№ýŽÇüÖŇ"@))
    } else if layout == "com.apple.keylayout.Turkish-QWERTY-PC"@ {
        Some(("$\\|`'[}^=.#{*+:/~;)(@<,&]>\""@, "+,;<ığÜ&.ç^Ğ(:Ş*>ş=)'Öö/üÇI"@))
    } else if layout == "com.apple.keylayout.Sami-PC"@ {
        Some(("}*x\"w[~^/@`]{|<)>W(\\X=Qq&':;"@, "Æ(čŊšøŽ&´\"žæØĐ;=:Š)đČ`Áá/ŋÅå"@))
    } else if layout == "com.apple.keylayout.LatinAmerican"@ {
        Some(("[^~>`(<\\@{;*&/):]|='}\""@, "{&>:<);¿\"[ñ(/'=Ñ}¡*´]¨"@))
    } else if layout == "com.apple.keylayout.IrishExtended"@ {
        Some(("#"@, "£"@))
    } else if layout == "com.apple.keylayout.Icelandic"@ {
        Some(("[}=:/'){(*&;^|`\"\\>]<~@"@, "æ´*Ð'ö=Æ)(/ð&Þ<Öþ:´;>\""@))
    } else if layout == "com.apple.keylayout.German-DIN-2137"@ {
        Some(("}~/<^>{`:\\)&=[]@|;#'\"(*"@, "Ä>ß;&:Ö<Ü#=/*öä\"'ü§´`)("@))
    } else if layout == "com.apple.keylayout.FinnishSami-PC"@ {
        Some((")=*\"\\[@{:>';/<|~(]}^`&"@, "=`(ˆ@ö\"ÖÅ:¨å´;*>)äÄ&</"@))
    } else if layout == "com.apple.keylayout.FinnishExtended"@ {
        Some(("];{`:'*<~=/}\\|&[\"($^)>@"@, "äåÖ<Å¨(;>`´Ä'*/öˆ)€&=:\""@))
    } else if layout == "com.apple.keylayout.Faroese"@ {
        Some(("}\";/$>^@~`:&[*){|]=(\\<'"@, "ÐØæ´€:&\"><Æ/å(=Å*ð`)';ø"@))
    } else if layout == "com.apple.keylayout.Croatian-PC"@ {
        Some(("{@~;<=>(&*['|]\":/}^`)\\"@, "Š\">č;*:)/(šćŽđĆČ'Đ&<=ž"@))
    } else if layout == "com.apple.keylayout.Croatian"@ {
        Some(("{@;<~=>(&*['|]\":}^)\\`"@, "Š\"č;>*:)'(šćŽđĆČĐ&=ž<"@))
    } else if layout == "com.apple.keylayout.Azeri"@ {
        Some((":{W?./\"[}<]|,>';w"@, "IÖÜ,ş.ƏöĞÇğ/çŞəıü"@))
    } else if layout == "com.apple.keylayout.Albanian"@ {
        Some(("\\'~;:|<>`\"@"@, "ë@>çÇË;:<'\""@))
    } else if layout == "com.apple.keylayout.SwissFrench"@ {
        Some((":@&'~^)$;\"][\\/#={!|*+`<(>}"@, "ü\"/^>&=çè`àé$'*¨ö+£(!<;):ä"@))
    } else if layout == "com.apple.keylayout.Swedish"@ {
        Some(("(]\\\"~$`^{|/>*:;<)&=[}'@"@, ")ä'^>€<&Ö*´:(Åå;=/`öÄ¨\""@))
    } else if layout == "com.apple.keylayout.Swedish-Pro"@ {
        Some(("/^*`'{|)$>&<[\\;(~\"}@]:="@, "´&(<¨Ö*=€:/;ö'å)>^Ä\"äÅ`"@))
    } else if layout == "com.apple.keylayout.Spanish"@ {
        Some(("|!\\<{[:;@`/~].'>}\"^"@, "\"¡'¿Ññº´!<.>;ç`Ç:¨/"@))
    } else if layout == "com.apple.keylayout.Spanish-ISO"@ {
        Some(("|~`]/:)(<&^>*;#}\"{.\\['@"@, "\"><;.º=)¿/&Ç(´·not found¨Ñç'ñ`\""@))
    } else if layout == "com.apple.keylayout.Portuguese"@ {
        Some((")`/'^\"<];>[:{@}(&*=~"@, "=<'´&`;~º:çªÇ\"^)/(*>"@))
    } else if layout == "com.apple.keylayout.Italian"@ {
        Some(("*7};8:!5%(1&4]^\\6)32>.</0|$,'{[`\"~9#@"@, "8)*ò£!1ç59&7($6§è0'\"/:.,é°4;ù^ì<%>à32"@))
    } else if layout == "com.apple.keylayout.Italian-Pro"@ {
        Some(("/:@[]'\\=){;|#<\"(*^&`}>~"@, "'é\"òàìù*=çè§£;^)(&/<°:>"@))
    } else if layout == "com.apple.keylayout.Irish"@ {
        Some(("#"@, "£"@))
    } else if layout == "com.apple.keylayout.German"@ {
        Some(("=`#'}:)/\"^&]*{;|[<(>~@\\"@, "*<§´ÄÜ=ß`&/ä(Öü'ö;):>\"#"@))
    } else if layout == "com.apple.keylayout.French"@ {
        Some(("*}7;8:!5%(1&4]\\^6)32>.</0|${'[`\"~9#@"@, "8*è)!°1(59&7'$`6§0\"é/;.:à£4¨ù^<%>ç32"@))
    } else if layout == "com.apple.keylayout.French-numerical"@ {
        Some(("|!52;][>&@\"%'{)<~7.1/^(}*8#0$9`6\\3:4"@, "£1(é)$^/72%5ù¨0.>è;&:69*8!3à4ç<§`\"°'"@))
    } else if layout == "com.apple.keylayout.French-PC"@ {
        Some(("!&\"_$}/72>8]#:31)*<%4;6\\-{['@(0|5.`9~^"@, "17%°4£:èé/_$3§\"&08.5'!-*)¨^ù29àμ(;<ç>6"@))
    } else if layout == "com.apple.keylayout.Finnish"@ {
        Some(("/^*`)'{|$>&<[\\~;(\"}@]:="@, "´&(<=¨Ö*€:/;ö'>å)^Ä\"äÅ`"@))
    } else if layout == "com.apple.keylayout.Danish"@ {
        Some(("=[;'`{}|>]*^(&@~)<\\/$\":"@, "`æå¨<ÆØ*:ø(&)/\">=;'´€^Å"@))
    } else if layout == "com.apple.keylayout.Canadian-CSA"@ {
        Some(("\\?']/><[{}|~`\""@, "àÉèçé\"'^¨ÇÀÙùÈ"@))
    } else if layout == "com.apple.keylayout.British"@ {
        Some(("#"@, "£"@))
    } else if layout == "com.apple.keylayout.Brazilian-ABNT2"@ {
        Some(("\"|~?`'/^\\"@, "`^\"Ç'´ç¨~"@))
    } else if layout == "com.apple.keylayout.Belgian"@ {
        Some(("`3/*<\\8>7#&96@);024(|'1\":$[~5.%^}]{!"@, "<\":8.`!/è37ç§20)àé'9£ù&%°4^>(;56*$¨1"@))
    } else if layout == "com.apple.keylayout.Austrian"@ {
        Some(("/^*`'{|)>&<[\\;(~\"}@]:=#"@, "ß&(<´Ö'=:/;ö#ü)>`Ä\"äÜ*§"@))
    } else if layout == "com.apple.keylayout.Slovak-QWERTY"@ {
        Some(("):9;63'\"]^/+@~>`?<!#5&${2}%*18(704["@, "0\"íôžš§!ä6'%2Ň:ňˇ?13ť74ÚľÄ58+á9ýéčú"@))
    } else if layout == "com.apple.keylayout.Slovak"@ {
        Some(("!$`10&:#4^*~{%5')}6/\"[8]97?;<@23>(+"@, "14ň+é7\"3č68ŇÚ5ť§0Äž'!úáäíýˇô?2ľš:9%"@))
    } else if layout == "com.apple.keylayout.Polish"@ {
        Some(("&)|?,%:;^}]_{!+#(*`/[~<\"$.>'@=\\"@, ":\"$Ż.+Łł=)(ćź§]!/_<żó>śę?,ńą%[;"@))
    } else if layout == "com.apple.keylayout.Lithuanian"@ {
        Some(("+#&=!%1*@73^584$26"@, "ŽĘŲžĄĮąŪČųęŠįūėĖčš"@))
    } else if layout == "com.apple.keylayout.Hungarian"@ {
        Some(("}(*@\"{=/|;>'[`<~\\!$&0#:]^)+"@, "Ú)(\"ÁŐóüŰé:áőíÜÍű'!=ö+Éú/ÖÓ"@))
    } else if layout == "com.apple.keylayout.Hungarian-QWERTY"@ {
        Some(("=]#>@/&<`0')~(\\!:*;$\"+^{|}["@, "óú+:\"ü=ÜíöáÖÍ)ű'É(é!ÁÓ/ŐŰÚő"@))
    } else if layout == "com.apple.keylayout.Czech-QWERTY"@ {
        Some(("9>0[2()\"}@]46%5;#8{*7^~+!3?&'<$/1`:"@, "í:éúě90!(2)čž5řů3áÚ8ý6`%1šˇ7§?4'+¨\""@))
    } else if layout == "com.apple.keylayout.Maltese"@ {
        Some(("[`}{#]~"@, "ġżĦĠ£ħŻ"@))
    } else if layout == "com.apple.keylayout.Turkish"@ {
        Some(("|}(#>&^-/`$%@]~*,[\"<_.{:'\\)"@, "ÜI%\"Ç)/ş.<'(*ı>_öğ-ÖŞçĞ$,ü:"@))
    } else if layout == "com.apple.keylayout.Turkish-Standard"@ {
        Some(("|}(#>=&^`@]~*,;[\"<.{:'\\)"@, "ÜI)^;*'&ö\"ıÖ(.çğŞ:,ĞÇşü="@))
    } else if layout == "com.apple.keylayout.NorwegianSami-PC"@ {
        Some(("\"}~<`&>':{@*^|\\)=([]/;"@, "ˆÆ>;</:¨ÅØ\"(&*@=`)øæ´å"@))
    } else if layout == "com.apple.keylayout.Serbian-Latin"@ {
        Some((";\\@>&'<]\"|(=}^)`[~:*{"@, "čž\":'ć;đĆŽ)*Đ&=<š>Č(Š"@))
    } else if layout == "com.apple.keylayout.Slovenian"@ {
        Some(("]`^@)&\":'*=<{;}(~>\\|["@, "đ<&\"='ĆČć(*;ŠčĐ)>:žŽš"@))
    } else if layout == "com.apple.keylayout.SwedishSami-PC"@ {
        Some(("@=<^|`>){'&\"}]~[/:*\\(;"@, "\"`;&*<:=Ö¨/ˆÄä>ö´Å(@)å"@))
    } else if layout == "com.apple.keylayout.SwissGerman"@ {
        Some(("={#:\\}!(+]/<\";$'`*[>&^~@)|"@, "¨é*è$à+)!ä';`üç^<(ö:/&>\"=£"@))
    } else if layout == "com.apple.keylayout.Hawaiian"@ {
        Some(("'"@, "ʻ"@))
    } else if layout == "com.apple.keylayout.NorthernSami"@ {
        Some((":/[<{X\"wQx\\(;~>W}`*@])'^|=q&"@, "Å´ø;ØČŊšÁčđ)åŽ:ŠÆž(\"æ=ŋ&Đ`á/"@))
    } else if layout == "com.apple.keylayout.USInternational-PC"@ {
        Some(("^~"@, "ˆ˜"@))
    } else if layout == "com.apple.keylayout.NorwegianExtended"@ {
        Some(("^~"@, "ˆ˜"@))
    } else if layout == "com.apple.keylayout.Norwegian"@ {
        Some(("`'~\"\\*|=/@)[:}&><]{(^;"@, "<¨>^@(*`´\"=øÅÆ/:;æØ)&å"@))
    } else if layout == "com.apple.keylayout.ABC-QWERTZ"@ {
        Some(("\"}~<`>'&#:{@*^|\\)=(]/;["@, "`Ä>;<:´/§ÜÖ\"(&'#=*)äßüö"@))
    } else if layout == "com.apple.keylayout.ABC-AZERTY"@ {
        Some((">[$61%@7|)&8\":}593(.4^<!{`2]\\#;~*/'0"@, "/^4§&52è£07!%°*(ç\"9;'6.1¨<é$`3)>8:ùà"@))
    } else if layout == "com.apple.keylayout.Czech"@ {
        Some(("(7*#193620?/{)@~!$8+;:%4\">`^]&5}[<'"@, "9ý83+íšžěéˇ'Ú02`14á%ů\"5č!:¨6)7ř(ú?§"@))
    } else if layout == "com.apple.keylayout.Brazilian-Pro"@ {
        Some(("^~"@, "ˆ˜"@))
    } else {
        None
    }
}

fn layout_table_exec(layout: &str) -> (r: Option<(&'static str, &'static str)>)
    ensures
        match layout_table(layout@) {
            Some((from, to)) => r matches Some((f, t)) && f@ == from && t@ == to,
            None => r is None,
        },
{
    if str_eq(layout, "com.apple.keylayout.Welsh") {
        return Some(("#", "£"));
    }
    if str_eq(layout, "com.apple.keylayout.Turkmen") {
        return Some(("qc]Q`|[XV\\^v~Cx}{", "äçöÄžŞňÜÝş№ýŽÇüÖŇ"));
    }
    if str_eq(layout, "com.apple.keylayout.Turkish-QWERTY-PC") {
        return Some(("$\\|`'[}^=.#{*+:/~;)(@<,&]>\"", "+,;<ığÜ&.ç^Ğ(:Ş*>ş=)'Öö/üÇI"));
    }
    if str_eq(layout, "com.apple.keylayout.Sami-PC") {
        return Some(("}*x\"w[~^/@`]{|<)>W(\\X=Qq&':;", "Æ(čŊšøŽ&´\"žæØĐ;=:Š)đČ`Áá/ŋÅå"));
    }
    if str_eq(layout, "com.apple.keylayout.LatinAmerican") {
        return Some(("[^~>`(<\\@{;*&/):]|='}\"", "{&>:<);¿\"[ñ(/'=Ñ}¡*´]¨"));
    }
    if str_eq(layout, "com.apple.keylayout.IrishExtended") {
        return Some(("#", "£"));
    }
    if str_eq(layout, "com.apple.keylayout.Icelandic") {
        return Some(("[}=:/'){(*&;^|`\"\\>]<~@", "æ´*Ð'ö=Æ)(/ð&Þ<Öþ:´;>\""));
    }
    if str_eq(layout, "com.apple.keylayout.German-DIN-2137") {
        return Some(("}~/<^>{`:\\)&=[]@|;#'\"(*", "Ä>ß;&:Ö<Ü#=/*öä\"'ü§´`)("));
    }
    if str_eq(layout, "com.apple.keylayout.FinnishSami-PC") {
        return Some((")=*\"\\[@{:>';/<|~(]}^`&", "=`(ˆ@ö\"ÖÅ:¨å´;*>)äÄ&</"));
    }
    if str_eq(layout, "com.apple.keylayout.FinnishExtended") {
        return Some(("];{`:'*<~=/}\\|&[\"($^)>@", "äåÖ<Å¨(;>`´Ä'*/öˆ)€&=:\""));
    }
    if str_eq(layout, "com.apple.keylayout.Faroese") {
        return Some(("}\";/$>^@~`:&[*){|]=(\\<'", "ÐØæ´€:&\"><Æ/å(=Å*ð`)';ø"));
    }
    if str_eq(layout, "com.apple.keylayout.Croatian-PC") {
        return Some(("{@~;<=>(&*['|]\":/}^`)\\", "Š\">č;*:)/(šćŽđĆČ'Đ&<=ž"));
    }
    if str_eq(layout, "com.apple.keylayout.Croatian") {
        return Some(("{@;<~=>(&*['|]\":}^)\\`", "Š\"č;>*:)'(šćŽđĆČĐ&=ž<"));
    }
    if str_eq(layout, "com.apple.keylayout.Azeri") {
        return Some((":{W?./\"[}<]|,>';w", "IÖÜ,ş.ƏöĞÇğ/çŞəıü"));
    }
    if str_eq(layout, "com.apple.keylayout.Albanian") {
        return Some(("\\'~;:|<>`\"@", "ë@>çÇË;:<'\""));
    }
    if str_eq(layout, "com.apple.keylayout.SwissFrench") {
        return Some((":@&'~^)$;\"][\\/#={!|*+`<(>}", "ü\"/^>&=çè`àé$'*¨ö+£(!<;):ä"));
    }
    if str_eq(layout, "com.apple.keylayout.Swedish") {
        return Some(("(]\\\"~$`^{|/>*:;<)&=[}'@", ")ä'^>€<&Ö*´:(Åå;=/`öÄ¨\""));
    }
    if str_eq(layout, "com.apple.keylayout.Swedish-Pro") {
        return Some(("/^*`'{|)$>&<[\\;(~\"}@]:=", "´&(<¨Ö*=€:/;ö'å)>^Ä\"äÅ`"));
    }
    if str_eq(layout, "com.apple.keylayout.Spanish") {
        return Some(("|!\\<{[:;@`/~].'>}\"^", "\"¡'¿Ññº´!<.>;ç`Ç:¨/"));
    }
    if str_eq(layout, "com.apple.keylayout.Spanish-ISO") {
        return Some(("|~`]/:)(<&^>*;#}\"{.\\['@", "\"><;.º=)¿/&Ç(´·not found¨Ñç'ñ`\""));
    }
    if str_eq(layout, "com.apple.keylayout.Portuguese") {
        return Some((")`/'^\"<];>[:{@}(&*=~", "=<'´&`;~º:çªÇ\"^)/(*>"));
    }
    if str_eq(layout, "com.apple.keylayout.Italian") {
        return Some(("*7};8:!5%(1&4]^\\6)32>.</0|$,'{[`\"~9#@", "8)*ò£!1ç59&7($6§è0'\"/:.,é°4;ù^ì<%>à32"));
    }
    if str_eq(layout, "com.apple.keylayout.Italian-Pro") {
        return Some(("/:@[]'\\=){;|#<\"(*^&`}>~", "'é\"òàìù*=çè§£;^)(&/<°:>"));
    }
    if str_eq(layout, "com.apple.keylayout.Irish") {
        return Some(("#", "£"));
    }
    if str_eq(layout, "com.apple.keylayout.German") {
        return Some(("=`#'}:)/\"^&]*{;|[<(>~@\\", "*<§´ÄÜ=ß`&/ä(Öü'ö;):>\"#"));
    }
    if str_eq(layout, "com.apple.keylayout.French") {
        return Some(("*}7;8:!5%(1&4]\\^6)32>.</0|${'[`\"~9#@", "8*è)!°1(59&7'$`6§0\"é/;.:à£4¨ù^<%>ç32"));
    }
    if str_eq(layout, "com.apple.keylayout.French-numerical") {
        return Some(("|!52;][>&@\"%'{)<~7.1/^(}*8#0$9`6\\3:4", "£1(é)$^/72%5ù¨0.>è;&:69*8!3à4ç<§`\"°'"));
    }
    if str_eq(layout, "com.apple.keylayout.French-PC") {
        return Some(("!&\"_$}/72>8]#:31)*<%4;6\\-{['@(0|5.`9~^", "17%°4£:èé/_$3§\"&08.5'!-*)¨^ù29àμ(;<ç>6"));
    }
    if str_eq(layout, "com.apple.keylayout.Finnish") {
        return Some(("/^*`)'{|$>&<[\\~;(\"}@]:=", "´&(<=¨Ö*€:/;ö'>å)^Ä\"äÅ`"));
    }
    if str_eq(layout, "com.apple.keylayout.Danish") {
        return Some(("=[;'`{}|>]*^(&@~)<\\/$\":", "`æå¨<ÆØ*:ø(&)/\">=;'´€^Å"));
    }
    if str_eq(layout, "com.apple.keylayout.Canadian-CSA") {
        return Some(("\\?']/><[{}|~`\"", "àÉèçé\"'^¨ÇÀÙùÈ"));
    }
    if str_eq(layout, "com.apple.keylayout.British") {
        return Some(("#", "£"));
    }
    if str_eq(layout, "com.apple.keylayout.Brazilian-ABNT2") {
        return Some(("\"|~?`'/^\\", "`^\"Ç'´ç¨~"));
    }
    if str_eq(layout, "com.apple.keylayout.Belgian") {
        return Some(("`3/*<\\8>7#&96@);024(|'1\":$[~5.%^}]{!", "<\":8.`!/è37ç§20)àé'9£ù&%°4^>(;56*$¨1"));
    }
    if str_eq(layout, "com.apple.keylayout.Austrian") {
        return Some(("/^*`'{|)>&<[\\;(~\"}@]:=#", "ß&(<´Ö'=:/;ö#ü)>`Ä\"äÜ*§"));
    }
    if str_eq(layout, "com.apple.keylayout.Slovak-QWERTY") {
        return Some(("):9;63'\"]^/+@~>`?<!#5&${2}%*18(704[", "0\"íôžš§!ä6'%2Ň:ňˇ?13ť74ÚľÄ58+á9ýéčú"));
    }
    if str_eq(layout, "com.apple.keylayout.Slovak") {
        return Some(("!$`10&:#4^*~{%5')}6/\"[8]97?;<@23>(+", "14ň+é7\"3č68ŇÚ5ť§0Äž'!úáäíýˇô?2ľš:9%"));
    }
    if str_eq(layout, "com.apple.keylayout.Polish") {
        return Some(("&)|?,%:;^}]_{!+#(*`/[~<\"$.>'@=\\", ":\"$Ż.+Łł=)(ćź§]!/_<żó>śę?,ńą%[;"));
    }
    if str_eq(layout, "com.apple.keylayout.Lithuanian") {
        return Some(("+#&=!%1*@73^584$26", "ŽĘŲžĄĮąŪČųęŠįūėĖčš"));
    }
    if str_eq(layout, "com.apple.keylayout.Hungarian") {
        return Some(("}(*@\"{=/|;>'[`<~\\!$&0#:]^)+", "Ú)(\"ÁŐóüŰé:áőíÜÍű'!=ö+Éú/ÖÓ"));
    }
    if str_eq(layout, "com.apple.keylayout.Hungarian-QWERTY") {
        return Some(("=]#>@/&<`0')~(\\!:*;$\"+^{|}[", "óú+:\"ü=ÜíöáÖÍ)ű'É(é!ÁÓ/ŐŰÚő"));
    }
    if str_eq(layout, "com.apple.keylayout.Czech-QWERTY") {
        return Some(("9>0[2()\"}@]46%5;#8{*7^~+!3?&'<$/1`:", "í:éúě90!(2)čž5řů3áÚ8ý6`%1šˇ7§?4'+¨\""));
    }
    if str_eq(layout, "com.apple.keylayout.Maltese") {
        return Some(("[`}{#]~", "ġżĦĠ£ħŻ"));
    }
    if str_eq(layout, "com.apple.keylayout.Turkish") {
        return Some(("|}(#>&^-/`$%@]~*,[\"<_.{:'\\)", "ÜI%\"Ç)/ş.<'(*ı>_öğ-ÖŞçĞ$,ü:"));
    }
    if str_eq(layout, "com.apple.keylayout.Turkish-Standard") {
        return Some(("|}(#>=&^`@]~*,;[\"<.{:'\\)", "ÜI)^;*'&ö\"ıÖ(.çğŞ:,ĞÇşü="));
    }
    if str_eq(layout, "com.apple.keylayout.NorwegianSami-PC") {
        return Some(("\"}~<`&>':{@*^|\\)=([]/;", "ˆÆ>;</:¨ÅØ\"(&*@=`)øæ´å"));
    }
    if str_eq(layout, "com.apple.keylayout.Serbian-Latin") {
        return Some((";\\@>&'<]\"|(=}^)`[~:*{", "čž\":'ć;đĆŽ)*Đ&=<š>Č(Š"));
    }
    if str_eq(layout, "com.apple.keylayout.Slovenian") {
        return Some(("]`^@)&\":'*=<{;}(~>\\|[", "đ<&\"='ĆČć(*;ŠčĐ)>:žŽš"));
    }
    if str_eq(layout, "com.apple.keylayout.SwedishSami-PC") {
        return Some(("@=<^|`>){'&\"}]~[/:*\\(;", "\"`;&*<:=Ö¨/ˆÄä>ö´Å(@)å"));
    }
    if str_eq(layout, "com.apple.keylayout.SwissGerman") {
        return Some(("={#:\\}!(+]/<\";$'`*[>&^~@)|", "¨é*è$à+)!ä';`üç^<(ö:/&>\"=£"));
    }
    if str_eq(layout, "com.apple.keylayout.Hawaiian") {
        return Some(("'", "ʻ"));
    }
    if str_eq(layout, "com.apple.keylayout.NorthernSami") {
        return Some((":/[<{X\"wQx\\(;~>W}`*@])'^|=q&", "Å´ø;ØČŊšÁčđ)åŽ:ŠÆž(\"æ=ŋ&Đ`á/"));
    }
    if str_eq(layout, "com.apple.keylayout.USInternational-PC") {
        return Some(("^~", "ˆ˜"));
    }
    if str_eq(layout, "com.apple.keylayout.NorwegianExtended") {
        return Some(("^~", "ˆ˜"));
    }
    if str_eq(layout, "com.apple.keylayout.Norwegian") {
        return Some(("`'~\"\\*|=/@)[:}&><]{(^;", "<¨>^@(*`´\"=øÅÆ/:;æØ)&å"));
    }
    if str_eq(layout, "com.apple.keylayout.ABC-QWERTZ") {
        return Some(("\"}~<`>'&#:{@*^|\\)=(]/;[", "`Ä>;<:´/§ÜÖ\"(&'#=*)äßüö"));
    }
    if str_eq(layout, "com.apple.keylayout.ABC-AZERTY") {
        return Some((">[$61%@7|)&8\":}593(.4^<!{`2]\\#;~*/'0", "/^4§&52è£07!%°*(ç\"9;'6.1¨<é$`3)>8:ùà"));
    }
    if str_eq(layout, "com.apple.keylayout.Czech") {
        return Some(("(7*#193620?/{)@~!$8+;:%4\">`^]&5}[<'", "9ý83+íšžěéˇ'Ú02`14á%ů\"5č!:¨6)7ř(ú?§"));
    }
    if str_eq(layout, "com.apple.keylayout.Brazilian-Pro") {
        return Some(("^~", "ˆ˜"));
    }
    None
}

/// The pairs `(from[i], to[i])` for every position that both strings have.
pub open spec fn zip_chars(from: Seq<char>, to: Seq<char>) -> Seq<(char, char)> {
    let n = if from.len() <= to.len() { from.len() } else { to.len() };
    Seq::new(n, |i: int| (from[i], to[i]))
}

/// The map that inserting `pairs` in order builds: a later pair overrides an
/// earlier one with the same key.
pub open spec fn pairs_to_map(pairs: Seq<(char, char)>) -> Map<char, char>
    decreases pairs.len(),
{
    if pairs.len() == 0 {
        Map::empty()
    } else {
        pairs_to_map(pairs.drop_last()).insert(pairs.last().0, pairs.last().1)
    }
}

/// Keys that do not occur in `pairs` from position `i` on are looked up in
/// the first `i` pairs alone.
proof fn lemma_lookup_in_prefix(pairs: Seq<(char, char)>, i: int, c: char)
    requires
        0 <= i <= pairs.len(),
        forall|j: int| i <= j < pairs.len() ==> pairs[j].0 != c,
    ensures
        pairs_to_map(pairs).contains_key(c) == pairs_to_map(pairs.take(i)).contains_key(c),
        pairs_to_map(pairs).contains_key(c) ==> pairs_to_map(pairs)[c] == pairs_to_map(
            pairs.take(i),
        )[c],
    decreases pairs.len() - i,
{
    if i < pairs.len() {
        let n = pairs.len();
        assert(pairs.drop_last() =~= pairs.take(n - 1));
        lemma_lookup_in_prefix(pairs.drop_last(), i, c);
        assert(pairs.drop_last().take(i) =~= pairs.take(i));
    } else {
        assert(pairs.take(i) =~= pairs);
    }
}

/// In the table of every layout but one, the two strings have the same length,
/// so that each shortcut character has exactly one replacement. The exception
/// is Spanish-ISO, whose second string is longer; there the extra characters
/// are never paired.
pub proof fn lemma_tables_have_equal_lengths(layout: Seq<char>)
    requires
        layout != "com.apple.keylayout.Spanish-ISO"@,
    ensures
        layout_table(layout) matches Some((from, to)) ==> from.len() == to.len(),
{
    reveal_strlit("#");
    reveal_strlit("£");
    reveal_strlit("qc]Q`|[XV\\^v~Cx}{");
    reveal_strlit("äçöÄžŞňÜÝş№ýŽÇüÖŇ");
    reveal_strlit("$\\|`'[}^=.#{*+:/~;)(@<,&]>\"");
    reveal_strlit("+,;<ığÜ&.ç^Ğ(:Ş*>ş=)'Öö/üÇI");
    reveal_strlit("}*x\"w[~^/@`]{|<)>W(\\X=Qq&':;");
    reveal_strlit("Æ(čŊšøŽ&´\"žæØĐ;=:Š)đČ`Áá/ŋÅå");
    reveal_strlit("[^~>`(<\\@{;*&/):]|='}\"");
    reveal_strlit("{&>:<);¿\"[ñ(/'=Ñ}¡*´]¨");
    reveal_strlit("#");
    reveal_strlit("£");
    reveal_strlit("[}=:/'){(*&;^|`\"\\>]<~@");
    reveal_strlit("æ´*Ð'ö=Æ)(/ð&Þ<Öþ:´;>\"");
    reveal_strlit("}~/<^>{`:\\)&=[]@|;#'\"(*");
    reveal_strlit("Ä>ß;&:Ö<Ü#=/*öä\"'ü§´`)(");
    reveal_strlit(")=*\"\\[@{:>';/<|~(]}^`&");
    reveal_strlit("=`(ˆ@ö\"ÖÅ:¨å´;*>)äÄ&</");
    reveal_strlit("];{`:'*<~=/}\\|&[\"($^)>@");
    reveal_strlit("äåÖ<Å¨(;>`´Ä'*/öˆ)€&=:\"");
    reveal_strlit("}\";/$>^@~`:&[*){|]=(\\<'");
    reveal_strlit("ÐØæ´€:&\"><Æ/å(=Å*ð`)';ø");
    reveal_strlit("{@~;<=>(&*['|]\":/}^`)\\");
    reveal_strlit("Š\">č;*:)/(šćŽđĆČ'Đ&<=ž");
    reveal_strlit("{@;<~=>(&*['|]\":}^)\\`");
    reveal_strlit("Š\"č;>*:)'(šćŽđĆČĐ&=ž<");
    reveal_strlit(":{W?./\"[}<]|,>';w");
    reveal_strlit("IÖÜ,ş.ƏöĞÇğ/çŞəıü");
    reveal_strlit("\\'~;:|<>`\"@");
    reveal_strlit("ë@>çÇË;:<'\"");
    reveal_strlit(":@&'~^)$;\"][\\/#={!|*+`<(>}");
    reveal_strlit("ü\"/^>&=çè`àé$'*¨ö+£(!<;):ä");
    reveal_strlit("(]\\\"~$`^{|/>*:;<)&=[}'@");
    reveal_strlit(")ä'^>€<&Ö*´:(Åå;=/`öÄ¨\"");
    reveal_strlit("/^*`'{|)$>&<[\\;(~\"}@]:=");
    reveal_strlit("´&(<¨Ö*=€:/;ö'å)>^Ä\"äÅ`");
    reveal_strlit("|!\\<{[:;@`/~].'>}\"^");
    reveal_strlit("\"¡'¿Ññº´!<.>;ç`Ç:¨/");
    reveal_strlit(")`/'^\"<];>[:{@}(&*=~");
    reveal_strlit("=<'´&`;~º:çªÇ\"^)/(*>");
    reveal_strlit("*7};8:!5%(1&4]^\\6)32>.</0|$,'{[`\"~9#@");
    reveal_strlit("8)*ò£!1ç59&7($6§è0'\"/:.,é°4;ù^ì<%>à32");
    reveal_strlit("/:@[]'\\=){;|#<\"(*^&`}>~");
    reveal_strlit("'é\"òàìù*=çè§£;^)(&/<°:>");
    reveal_strlit("#");
    reveal_strlit("£");
    reveal_strlit("=`#'}:)/\"^&]*{;|[<(>~@\\");
    reveal_strlit("*<§´ÄÜ=ß`&/ä(Öü'ö;):>\"#");
    reveal_strlit("*}7;8:!5%(1&4]\\^6)32>.</0|${'[`\"~9#@");
    reveal_strlit("8*è)!°1(59&7'$`6§0\"é/;.:à£4¨ù^<%>ç32");
    reveal_strlit("|!52;][>&@\"%'{)<~7.1/^(}*8#0$9`6\\3:4");
    reveal_strlit("£1(é)$^/72%5ù¨0.>è;&:69*8!3à4ç<§`\"°'");
    reveal_strlit("!&\"_$}/72>8]#:31)*<%4;6\\-{['@(0|5.`9~^");
    reveal_strlit("17%°4£:èé/_$3§\"&08.5'!-*)¨^ù29àμ(;<ç>6");
    reveal_strlit("/^*`)'{|$>&<[\\~;(\"}@]:=");
    reveal_strlit("´&(<=¨Ö*€:/;ö'>å)^Ä\"äÅ`");
    reveal_strlit("=[;'`{}|>]*^(&@~)<\\/$\":");
    reveal_strlit("`æå¨<ÆØ*:ø(&)/\">=;'´€^Å");
    reveal_strlit("\\?']/><[{}|~`\"");
    reveal_strlit("àÉèçé\"'^¨ÇÀÙùÈ");
    reveal_strlit("#");
    reveal_strlit("£");
    reveal_strlit("\"|~?`'/^\\");
    reveal_strlit("`^\"Ç'´ç¨~");
    reveal_strlit("`3/*<\\8>7#&96@);024(|'1\":$[~5.%^}]{!");
    reveal_strlit("<\":8.`!/è37ç§20)àé'9£ù&%°4^>(;56*$¨1");
    reveal_strlit("/^*`'{|)>&<[\\;(~\"}@]:=#");
    reveal_strlit("ß&(<´Ö'=:/;ö#ü)>`Ä\"äÜ*§");
    reveal_strlit("):9;63'\"]^/+@~>`?<!#5&${2}%*18(704[");
    reveal_strlit("0\"íôžš§!ä6'%2Ň:ňˇ?13ť74ÚľÄ58+á9ýéčú");
    reveal_strlit("!$`10&:#4^*~{%5')}6/\"[8]97?;<@23>(+");
    reveal_strlit("14ň+é7\"3č68ŇÚ5ť§0Äž'!úáäíýˇô?2ľš:9%");
    reveal_strlit("&)|?,%:;^}]_{!+#(*`/[~<\"$.>'@=\\");
    reveal_strlit(":\"$Ż.+Łł=)(ćź§]!/_<żó>śę?,ńą%[;");
    reveal_strlit("+#&=!%1*@73^584$26");
    reveal_strlit("ŽĘŲžĄĮąŪČųęŠįūėĖčš");
    reveal_strlit("}(*@\"{=/|;>'[`<~\\!$&0#:]^)+");
    reveal_strlit("Ú)(\"ÁŐóüŰé:áőíÜÍű'!=ö+Éú/ÖÓ");
    reveal_strlit("=]#>@/&<`0')~(\\!:*;$\"+^{|}[");
    reveal_strlit("óú+:\"ü=ÜíöáÖÍ)ű'É(é!ÁÓ/ŐŰÚő");
    reveal_strlit("9>0[2()\"}@]46%5;#8{*7^~+!3?&'<$/1`:");
    reveal_strlit("í:éúě90!(2)čž5řů3áÚ8ý6`%1šˇ7§?4'+¨\"");
    reveal_strlit("[`}{#]~");
    reveal_strlit("ġżĦĠ£ħŻ");
    reveal_strlit("|}(#>&^-/`$%@]~*,[\"<_.{:'\\)");
    reveal_strlit("ÜI%\"Ç)/ş.<'(*ı>_öğ-ÖŞçĞ$,ü:");
    reveal_strlit("|}(#>=&^`@]~*,;[\"<.{:'\\)");
    reveal_strlit("ÜI)^;*'&ö\"ıÖ(.çğŞ:,ĞÇşü=");
    reveal_strlit("\"}~<`&>':{@*^|\\)=([]/;");
    reveal_strlit("ˆÆ>;</:¨ÅØ\"(&*@=`)øæ´å");
    reveal_strlit(";\\@>&'<]\"|(=}^)`[~:*{");
    reveal_strlit("čž\":'ć;đĆŽ)*Đ&=<š>Č(Š");
    reveal_strlit("]`^@)&\":'*=<{;}(~>\\|[");
    reveal_strlit("đ<&\"='ĆČć(*;ŠčĐ)>:žŽš");
    reveal_strlit("@=<^|`>){'&\"}]~[/:*\\(;");
    reveal_strlit("\"`;&*<:=Ö¨/ˆÄä>ö´Å(@)å");
    reveal_strlit("={#:\\}!(+]/<\";$'`*[>&^~@)|");
    reveal_strlit("¨é*è$à+)!ä';`üç^<(ö:/&>\"=£");
    reveal_strlit("'");
    reveal_strlit("ʻ");
    reveal_strlit(":/[<{X\"wQx\\(;~>W}`*@])'^|=q&");
    reveal_strlit("Å´ø;ØČŊšÁčđ)åŽ:ŠÆž(\"æ=ŋ&Đ`á/");
    reveal_strlit("^~");
    reveal_strlit("ˆ˜");
    reveal_strlit("^~");
    reveal_strlit("ˆ˜");
    reveal_strlit("`'~\"\\*|=/@)[:}&><]{(^;");
    reveal_strlit("<¨>^@(*`´\"=øÅÆ/:;æØ)&å");
    reveal_strlit("\"}~<`>'&#:{@*^|\\)=(]/;[");
    reveal_strlit("`Ä>;<:´/§ÜÖ\"(&'#=*)äßüö");
    reveal_strlit(">[$61%@7|)&8\":}593(.4^<!{`2]\\#;~*/'0");
    reveal_strlit("/^4§&52è£07!%°*(ç\"9;'6.1¨<é$`3)>8:ùà");
    reveal_strlit("(7*#193620?/{)@~!$8+;:%4\">`^]&5}[<'");
    reveal_strlit("9ý83+íšžěéˇ'Ú02`14á%ů\"5č!:¨6)7ř(ú?§");
    reveal_strlit("^~");
    reveal_strlit("ˆ˜");
}

/// `c` differs from every character of `s`.
#[verifier::opaque]
pub open spec fn differs_from_all(c: char, s: Seq<char>) -> bool
    decreases s.len(),
{
    s.len() == 0 || (c != s[0] && differs_from_all(c, s.drop_first()))
}

/// No character occurs twice in `s`.
#[verifier::opaque]
pub open spec fn all_distinct(s: Seq<char>) -> bool
    decreases s.len(),
{
    s.len() == 0 || (differs_from_all(s[0], s.drop_first()) && all_distinct(s.drop_first()))
}

proof fn lemma_layout_1()
    ensures
        layout_table("com.apple.keylayout.Welsh"@) == Some(("#"@, "£"@)),
{
    reveal_strlit("com.apple.keylayout.Welsh");
    assert("com.apple.keylayout.Welsh"@.len() == 25);
}

proof fn lemma_layout_2()
    ensures
        layout_table("com.apple.keylayout.Turkmen"@) == Some(("qc]Q`|[XV\\^v~Cx}{"@, "äçöÄžŞňÜÝş№ýŽÇüÖŇ"@)),
{
    reveal_strlit("com.apple.keylayout.Turkmen");
    assert("com.apple.keylayout.Turkmen"@.len() == 27);
    reveal_strlit("com.apple.keylayout.Welsh");
    assert("com.apple.keylayout.Welsh"@.len() == 25);
}

proof fn lemma_layout_3()
    ensures
        layout_table("com.apple.keylayout.Turkish-QWERTY-PC"@) == Some(("$\\|`'[}^=.#{*+:/~;)(@<,&]>\""@, "+,;<ığÜ&.ç^Ğ(:Ş*>ş=)'Öö/üÇI"@)),
{
    reveal_strlit("com.apple.keylayout.Turkish-QWERTY-PC");
    assert("com.apple.keylayout.Turkish-QWERTY-PC"@.len() == 37);
    reveal_strlit("com.apple.keylayout.Welsh");
    assert("com.apple.keylayout.Welsh"@.len() == 25);
    reveal_strlit("com.apple.keylayout.Turkmen");
    assert("com.apple.keylayout.Turkmen"@.len() == 27);
}

proof fn lemma_layout_4()
    ensures
        layout_table("com.apple.keylayout.Sami-PC"@) == Some(("}*x\"w[~^/@`]{|<)>W(\\X=Qq&':;"@, "Æ(čŊšøŽ&´\"žæØĐ;=:Š)đČ`Áá/ŋÅå"@)),
{
    reveal_strlit("com.apple.keylayout.Sami-PC");
    assert("com.apple.keylayout.Sami-PC"@.len() == 27);
    reveal_strlit("com.apple.keylayout.Welsh");
    assert("com.apple.keylayout.Welsh"@.len() == 25);
    reveal_strlit("com.apple.keylayout.Turkmen");
    assert("com.apple.keylayout.Turkmen"@.len() == 27);
    assert("com.apple.keylayout.Sami-PC"@[20] != "com.apple.keylayout.Turkmen"@[20]);
    reveal_strlit("com.apple.keylayout.Turkish-QWERTY-PC");
    assert("com.apple.keylayout.Turkish-QWERTY-PC"@.len() == 37);
}

proof fn lemma_layout_5()
    ensures
        layout_table("com.apple.keylayout.LatinAmerican"@) == Some(("[^~>`(<\\@{;*&/):]|='}\""@, "{&>:<);¿\"[ñ(/'=Ñ}¡*´]¨"@)),
{
    reveal_strlit("com.apple.keylayout.LatinAmerican");
    assert("com.apple.keylayout.LatinAmerican"@.len() == 33);
    reveal_strlit("com.apple.keylayout.Welsh");
    assert("com.apple.keylayout.Welsh"@.len() == 25);
    reveal_strlit("com.apple.keylayout.Turkmen");
    assert("com.apple.keylayout.Turkmen"@.len() == 27);
    reveal_strlit("com.apple.keylayout.Turkish-QWERTY-PC");
    assert("com.apple.keylayout.Turkish-QWERTY-PC"@.len() == 37);
    reveal_strlit("com.apple.keylayout.Sami-PC");
    assert("com.apple.keylayout.Sami-PC"@.len() == 27);
}

proof fn lemma_layout_6()
    ensures
        layout_table("com.apple.keylayout.IrishExtended"@) == Some(("#"@, "£"@)),
{
    reveal_strlit("com.apple.keylayout.IrishExtended");
    assert("com.apple.keylayout.IrishExtended"@.len() == 33);
    reveal_strlit("com.apple.keylayout.Welsh");
    assert("com.apple.keylayout.Welsh"@.len() == 25);
    reveal_strlit("com.apple.keylayout.Turkmen");
    assert("com.apple.keylayout.Turkmen"@.len() == 27);
    reveal_strlit("com.apple.keylayout.Turkish-QWERTY-PC");
    assert("com.apple.keylayout.Turkish-QWERTY-PC"@.len() == 37);
    reveal_strlit("com.apple.keylayout.Sami-PC");
    assert("com.apple.keylayout.Sami-PC"@.len() == 27);
    reveal_strlit("com.apple.keylayout.LatinAmerican");
    assert("com.apple.keylayout.LatinAmerican"@.len() == 33);
    assert("com.apple.keylayout.IrishExtended"@[20] != "com.apple.keylayout.LatinAmerican"@[20]);
}

proof fn lemma_layout_7()
    ensures
        layout_table("com.apple.keylayout.Icelandic"@) == Some(("[}=:/'){(*&;^|`\"\\>]<~@"@, "æ´*Ð'ö=Æ)(/ð&Þ<Öþ:´;>\""@)),
{
    reveal_strlit("com.apple.keylayout.Icelandic");
    assert("com.apple.keylayout.Icelandic"@.len() == 29);
    reveal_strlit("com.apple.keylayout.Welsh");
    assert("com.apple.keylayout.Welsh"@.len() == 25);
    reveal_strlit("com.apple.keylayout.Turkmen");
    assert("com.apple.keylayout.Turkmen"@.len() == 27);
    reveal_strlit("com.apple.keylayout.Turkish-QWERTY-PC");
    assert("com.apple.keylayout.Turkish-QWERTY-PC"@.len() == 37);
    reveal_strlit("com.apple.keylayout.Sami-PC");
    assert("com.apple.keylayout.Sami-PC"@.len() == 27);
    reveal_strlit("com.apple.keylayout.LatinAmerican");
    assert("com.apple.keylayout.LatinAmerican"@.len() == 33);
    reveal_strlit("com.apple.keylayout.IrishExtended");
    assert("com.apple.keylayout.IrishExtended"@.len() == 33);
}

proof fn lemma_layout_8()
    ensures
        layout_table("com.apple.keylayout.German-DIN-2137"@) == Some(("}~/<^>{`:\\)&=[]@|;#'\"(*"@, "Ä>ß;&:Ö<Ü#=/*öä\"'ü§´`)("@)),
{
    reveal_strlit("com.apple.keylayout.German-DIN-2137");
    assert("com.apple.keylayout.German-DIN-2137"@.len() == 35);
    reveal_strlit("com.apple.keylayout.Welsh");
    assert("com.apple.keylayout.Welsh"@.len() == 25);
    reveal_strlit("com.apple.keylayout.Turkmen");
    assert("com.apple.keylayout.Turkmen"@.len() == 27);
    reveal_strlit("com.apple.keylayout.Turkish-QWERTY-PC");
    assert("com.apple.keylayout.Turkish-QWERTY-PC"@.len() == 37);
    reveal_strlit("com.apple.keylayout.Sami-PC");
    assert("com.apple.keylayout.Sami-PC"@.len() == 27);
    reveal_strlit("com.apple.keylayout.LatinAmerican");
    assert("com.apple.keylayout.LatinAmerican"@.len() == 33);
    reveal_strlit("com.apple.keylayout.IrishExtended");
    assert("com.apple.keylayout.IrishExtended"@.len() == 33);
    reveal_strlit("com.apple.keylayout.Icelandic");
    assert("com.apple.keylayout.Icelandic"@.len() == 29);
}

proof fn lemma_layout_9()
    ensures
        layout_table("com.apple.keylayout.FinnishSami-PC"@) == Some((")=*\"\\[@{:>';/<|~(]}^`&"@, "=`(ˆ@ö\"ÖÅ:¨å´;*>)äÄ&</"@)),
{
    reveal_strlit("com.apple.keylayout.FinnishSami-PC");
    assert("com.apple.keylayout.FinnishSami-PC"@.len() == 34);
    reveal_strlit("com.apple.keylayout.Welsh");
    assert("com.apple.keylayout.Welsh"@.len() == 25);
    reveal_strlit("com.apple.keylayout.Turkmen");
    assert("com.apple.keylayout.Turkmen"@.len() == 27);
    reveal_strlit("com.apple.keylayout.Turkish-QWERTY-PC");
    assert("com.apple.keylayout.Turkish-QWERTY-PC"@.len() == 37);
    reveal_strlit("com.apple.keylayout.Sami-PC");
    assert("com.apple.keylayout.Sami-PC"@.len() == 27);
    reveal_strlit("com.apple.keylayout.LatinAmerican");
    assert("com.apple.keylayout.LatinAmerican"@.len() == 33);
    reveal_strlit("com.apple.keylayout.IrishExtended");
    assert("com.apple.keylayout.IrishExtended"@.len() == 33);
    reveal_strlit("com.apple.keylayout.Icelandic");
    assert("com.apple.keylayout.Icelandic"@.len() == 29);
    reveal_strlit("com.apple.keylayout.German-DIN-2137");
    assert("com.apple.keylayout.German-DIN-2137"@.len() == 35);
}

proof fn lemma_layout_10()
    ensures
        layout_table("com.apple.keylayout.FinnishExtended"@) == Some(("];{`:'*<~=/}\\|&[\"($^)>@"@, "äåÖ<Å¨(;>`´Ä'*/öˆ)€&=:\""@)),
{
    reveal_strlit("com.apple.keylayout.FinnishExtended");
    assert("com.apple.keylayout.FinnishExtended"@.len() == 35);
    reveal_strlit("com.apple.keylayout.Welsh");
    assert("com.apple.keylayout.Welsh"@.len() == 25);
    reveal_strlit("com.apple.keylayout.Turkmen");
    assert("com.apple.keylayout.Turkmen"@.len() == 27);
    reveal_strlit("com.apple.keylayout.Turkish-QWERTY-PC");
    assert("com.apple.keylayout.Turkish-QWERTY-PC"@.len() == 37);
    reveal_strlit("com.apple.keylayout.Sami-PC");
    assert("com.apple.keylayout.Sami-PC"@.len() == 27);
    reveal_strlit("com.apple.keylayout.LatinAmerican");
    assert("com.apple.keylayout.LatinAmerican"@.len() == 33);
    reveal_strlit("com.apple.keylayout.IrishExtended");
    assert("com.apple.keylayout.IrishExtended"@.len() == 33);
    reveal_strlit("com.apple.keylayout.Icelandic");
    assert("com.apple.keylayout.Icelandic"@.len() == 29);
    reveal_strlit("com.apple.keylayout.German-DIN-2137");
    assert("com.apple.keylayout.German-DIN-2137"@.len() == 35);
    assert("com.apple.keylayout.FinnishExtended"@[20] != "com.apple.keylayout.German-DIN-2137"@[20]);
    reveal_strlit("com.apple.keylayout.FinnishSami-PC");
    assert("com.apple.keylayout.FinnishSami-PC"@.len() == 34);
}

proof fn lemma_layout_11()
    ensures
        layout_table("com.apple.keylayout.Faroese"@) == Some(("}\";/$>^@~`:&[*){|]=(\\<'"@, "ÐØæ´€:&\"><Æ/å(=Å*ð`)';ø"@)),
{
    reveal_strlit("com.apple.keylayout.Faroese");
    assert("com.apple.keylayout.Faroese"@.len() == 27);
    reveal_strlit("com.apple.keylayout.Welsh");
    assert("com.apple.keylayout.Welsh"@.len() == 25);
    reveal_strlit("com.apple.keylayout.Turkmen");
    assert("com.apple.keylayout.Turkmen"@.len() == 27);
    assert("com.apple.keylayout.Faroese"@[20] != "com.apple.keylayout.Turkmen"@[20]);
    reveal_strlit("com.apple.keylayout.Turkish-QWERTY-PC");
    assert("com.apple.keylayout.Turkish-QWERTY-PC"@.len() == 37);
    reveal_strlit("com.apple.keylayout.Sami-PC");
    assert("com.apple.keylayout.Sami-PC"@.len() == 27);
    assert("com.apple.keylayout.Faroese"@[20] != "com.apple.keylayout.Sami-PC"@[20]);
    reveal_strlit("com.apple.keylayout.LatinAmerican");
    assert("com.apple.keylayout.LatinAmerican"@.len() == 33);
    reveal_strlit("com.apple.keylayout.IrishExtended");
    assert("com.apple.keylayout.IrishExtended"@.len() == 33);
    reveal_strlit("com.apple.keylayout.Icelandic");
    assert("com.apple.keylayout.Icelandic"@.len() == 29);
    reveal_strlit("com.apple.keylayout.German-DIN-2137");
    assert("com.apple.keylayout.German-DIN-2137"@.len() == 35);
    reveal_strlit("com.apple.keylayout.FinnishSami-PC");
    assert("com.apple.keylayout.FinnishSami-PC"@.len() == 34);
    reveal_strlit("com.apple.keylayout.FinnishExtended");
    assert("com.apple.keylayout.FinnishExtended"@.len() == 35);
}

proof fn lemma_layout_12()
    ensures
        layout_table("com.apple.keylayout.Croatian-PC"@) == Some(("{@~;<=>(&*['|]\":/}^`)\\"@, "Š\">č;*:)/(šćŽđĆČ'Đ&<=ž"@)),
{
    reveal_strlit("com.apple.keylayout.Croatian-PC");
    assert("com.apple.keylayout.Croatian-PC"@.len() == 31);
    reveal_strlit("com.apple.keylayout.Welsh");
    assert("com.apple.keylayout.Welsh"@.len() == 25);
    reveal_strlit("com.apple.keylayout.Turkmen");
    assert("com.apple.keylayout.Turkmen"@.len() == 27);
    reveal_strlit("com.apple.keylayout.Turkish-QWERTY-PC");
    assert("com.apple.keylayout.Turkish-QWERTY-PC"@.len() == 37);
    reveal_strlit("com.apple.keylayout.Sami-PC");
    assert("com.apple.keylayout.Sami-PC"@.len() == 27);
    reveal_strlit("com.apple.keylayout.LatinAmerican");
    assert("com.apple.keylayout.LatinAmerican"@.len() == 33);
    reveal_strlit("com.apple.keylayout.IrishExtended");
    assert("com.apple.keylayout.IrishExtended"@.len() == 33);
    reveal_strlit("com.apple.keylayout.Icelandic");
    assert("com.apple.keylayout.Icelandic"@.len() == 29);
    reveal_strlit("com.apple.keylayout.German-DIN-2137");
    assert("com.apple.keylayout.German-DIN-2137"@.len() == 35);
    reveal_strlit("com.apple.keylayout.FinnishSami-PC");
    assert("com.apple.keylayout.FinnishSami-PC"@.len() == 34);
    reveal_strlit("com.apple.keylayout.FinnishExtended");
    assert("com.apple.keylayout.FinnishExtended"@.len() == 35);
    reveal_strlit("com.apple.keylayout.Faroese");
    assert("com.apple.keylayout.Faroese"@.len() == 27);
}

proof fn lemma_layout_13()
    ensures
        layout_table("com.apple.keylayout.Croatian"@) == Some(("{@;<~=>(&*['|]\":}^)\\`"@, "Š\"č;>*:)'(šćŽđĆČĐ&=ž<"@)),
{
    reveal_strlit("com.apple.keylayout.Croatian");
    assert("com.apple.keylayout.Croatian"@.len() == 28);
    reveal_strlit("com.apple.keylayout.Welsh");
    assert("com.apple.keylayout.Welsh"@.len() == 25);
    reveal_strlit("com.apple.keylayout.Turkmen");
    assert("com.apple.keylayout.Turkmen"@.len() == 27);
    reveal_strlit("com.apple.keylayout.Turkish-QWERTY-PC");
    assert("com.apple.keylayout.Turkish-QWERTY-PC"@.len() == 37);
    reveal_strlit("com.apple.keylayout.Sami-PC");
    assert("com.apple.keylayout.Sami-PC"@.len() == 27);
    reveal_strlit("com.apple.keylayout.LatinAmerican");
    assert("com.apple.keylayout.LatinAmerican"@.len() == 33);
    reveal_strlit("com.apple.keylayout.IrishExtended");
    assert("com.apple.keylayout.IrishExtended"@.len() == 33);
    reveal_strlit("com.apple.keylayout.Icelandic");
    assert("com.apple.keylayout.Icelandic"@.len() == 29);
    reveal_strlit("com.apple.keylayout.German-DIN-2137");
    assert("com.apple.keylayout.German-DIN-2137"@.len() == 35);
    reveal_strlit("com.apple.keylayout.FinnishSami-PC");
    assert("com.apple.keylayout.FinnishSami-PC"@.len() == 34);
    reveal_strlit("com.apple.keylayout.FinnishExtended");
    assert("com.apple.keylayout.FinnishExtended"@.len() == 35);
    reveal_strlit("com.apple.keylayout.Faroese");
    assert("com.apple.keylayout.Faroese"@.len() == 27);
    reveal_strlit("com.apple.keylayout.Croatian-PC");
    assert("com.apple.keylayout.Croatian-PC"@.len() == 31);
}

proof fn lemma_layout_14()
    ensures
        layout_table("com.apple.keylayout.Azeri"@) == Some((":{W?./\"[}<]|,>';w"@, "IÖÜ,ş.ƏöĞÇğ/çŞəıü"@)),
{
    reveal_strlit("com.apple.keylayout.Azeri");
    assert("com.apple.keylayout.Azeri"@.len() == 25);
    reveal_strlit("com.apple.keylayout.Welsh");
    assert("com.apple.keylayout.Welsh"@.len() == 25);
    assert("com.apple.keylayout.Azeri"@[20] != "com.apple.keylayout.Welsh"@[20]);
    reveal_strlit("com.apple.keylayout.Turkmen");
    assert("com.apple.keylayout.Turkmen"@.len() == 27);
    reveal_strlit("com.apple.keylayout.Turkish-QWERTY-PC");
    assert("com.apple.keylayout.Turkish-QWERTY-PC"@.len() == 37);
    reveal_strlit("com.apple.keylayout.Sami-PC");
    assert("com.apple.keylayout.Sami-PC"@.len() == 27);
    reveal_strlit("com.apple.keylayout.LatinAmerican");
    assert("com.apple.keylayout.LatinAmerican"@.len() == 33);
    reveal_strlit("com.apple.keylayout.IrishExtended");
    assert("com.apple.keylayout.IrishExtended"@.len() == 33);
    reveal_strlit("com.apple.keylayout.Icelandic");
    assert("com.apple.keylayout.Icelandic"@.len() == 29);
    reveal_strlit("com.apple.keylayout.German-DIN-2137");
    assert("com.apple.keylayout.German-DIN-2137"@.len() == 35);
    reveal_strlit("com.apple.keylayout.FinnishSami-PC");
    assert("com.apple.keylayout.FinnishSami-PC"@.len() == 34);
    reveal_strlit("com.apple.keylayout.FinnishExtended");
    assert("com.apple.keylayout.FinnishExtended"@.len() == 35);
    reveal_strlit("com.apple.keylayout.Faroese");
    assert("com.apple.keylayout.Faroese"@.len() == 27);
    reveal_strlit("com.apple.keylayout.Croatian-PC");
    assert("com.apple.keylayout.Croatian-PC"@.len() == 31);
    reveal_strlit("com.apple.keylayout.Croatian");
    assert("com.apple.keylayout.Croatian"@.len() == 28);
}

proof fn lemma_layout_15()
    ensures
        layout_table("com.apple.keylayout.Albanian"@) == Some(("\\'~;:|<>`\"@"@, "ë@>çÇË;:<'\""@)),
{
    reveal_strlit("com.apple.keylayout.Albanian");
    assert("com.apple.keylayout.Albanian"@.len() == 28);
    reveal_strlit("com.apple.keylayout.Welsh");
    assert("com.apple.keylayout.Welsh"@.len() == 25);
    reveal_strlit("com.apple.keylayout.Turkmen");
    assert("com.apple.keylayout.Turkmen"@.len() == 27);
    reveal_strlit("com.apple.keylayout.Turkish-QWERTY-PC");
    assert("com.apple.keylayout.Turkish-QWERTY-PC"@.len() == 37);
    reveal_strlit("com.apple.keylayout.Sami-PC");
    assert("com.apple.keylayout.Sami-PC"@.len() == 27);
    reveal_strlit("com.apple.keylayout.LatinAmerican");
    assert("com.apple.keylayout.LatinAmerican"@.len() == 33);
    reveal_strlit("com.apple.keylayout.IrishExtended");
    assert("com.apple.keylayout.IrishExtended"@.len() == 33);
    reveal_strlit("com.apple.keylayout.Icelandic");
    assert("com.apple.keylayout.Icelandic"@.len() == 29);
    reveal_strlit("com.apple.keylayout.German-DIN-2137");
    assert("com.apple.keylayout.German-DIN-2137"@.len() == 35);
    reveal_strlit("com.apple.keylayout.FinnishSami-PC");
    assert("com.apple.keylayout.FinnishSami-PC"@.len() == 34);
    reveal_strlit("com.apple.keylayout.FinnishExtended");
    assert("com.apple.keylayout.FinnishExtended"@.len() == 35);
    reveal_strlit("com.apple.keylayout.Faroese");
    assert("com.apple.keylayout.Faroese"@.len() == 27);
    reveal_strlit("com.apple.keylayout.Croatian-PC");
    assert("com.apple.keylayout.Croatian-PC"@.len() == 31);
    reveal_strlit("com.apple.keylayout.Croatian");
    assert("com.apple.keylayout.Croatian"@.len() == 28);
    assert("com.apple.keylayout.Albanian"@[20] != "com.apple.keylayout.Croatian"@[20]);
    reveal_strlit("com.apple.keylayout.Azeri");
    assert("com.apple.keylayout.Azeri"@.len() == 25);
}

proof fn lemma_layout_16()
    ensures
        layout_table("com.apple.keylayout.SwissFrench"@) == Some((":@&'~^)$;\"][\\/#={!|*+`<(>}"@, "ü\"/^>&=çè`àé$'*¨ö+£(!<;):ä"@)),
{
    reveal_strlit("com.apple.keylayout.SwissFrench");
    assert("com.apple.keylayout.SwissFrench"@.len() == 31);
    reveal_strlit("com.apple.keylayout.Welsh");
    assert("com.apple.keylayout.Welsh"@.len() == 25);
    reveal_strlit("com.apple.keylayout.Turkmen");
    assert("com.apple.keylayout.Turkmen"@.len() == 27);
    reveal_strlit("com.apple.keylayout.Turkish-QWERTY-PC");
    assert("com.apple.keylayout.Turkish-QWERTY-PC"@.len() == 37);
    reveal_strlit("com.apple.keylayout.Sami-PC");
    assert("com.apple.keylayout.Sami-PC"@.len() == 27);
    reveal_strlit("com.apple.keylayout.LatinAmerican");
    assert("com.apple.keylayout.LatinAmerican"@.len() == 33);
    reveal_strlit("com.apple.keylayout.IrishExtended");
    assert("com.apple.keylayout.IrishExtended"@.len() == 33);
    reveal_strlit("com.apple.keylayout.Icelandic");
    assert("com.apple.keylayout.Icelandic"@.len() == 29);
    reveal_strlit("com.apple.keylayout.German-DIN-2137");
    assert("com.apple.keylayout.German-DIN-2137"@.len() == 35);
    reveal_strlit("com.apple.keylayout.FinnishSami-PC");
    assert("com.apple.keylayout.FinnishSami-PC"@.len() == 34);
    reveal_strlit("com.apple.keylayout.FinnishExtended");
    assert("com.apple.keylayout.FinnishExtended"@.len() == 35);
    reveal_strlit("com.apple.keylayout.Faroese");
    assert("com.apple.keylayout.Faroese"@.len() == 27);
    reveal_strlit("com.apple.keylayout.Croatian-PC");
    assert("com.apple.keylayout.Croatian-PC"@.len() == 31);
    assert("com.apple.keylayout.SwissFrench"@[20] != "com.apple.keylayout.Croatian-PC"@[20]);
    reveal_strlit("com.apple.keylayout.Croatian");
    assert("com.apple.keylayout.Croatian"@.len() == 28);
    reveal_strlit("com.apple.keylayout.Azeri");
    assert("com.apple.keylayout.Azeri"@.len() == 25);
    reveal_strlit("com.apple.keylayout.Albanian");
    assert("com.apple.keylayout.Albanian"@.len() == 28);
}

proof fn lemma_layout_17()
    ensures
        layout_table("com.apple.keylayout.Swedish"@) == Some(("(]\\\"~$`^{|/>*:;<)&=[}'@"@, ")ä'^>€<&Ö*´:(Åå;=/`öÄ¨\""@)),
{
    reveal_strlit("com.apple.keylayout.Swedish");
    assert("com.apple.keylayout.Swedish"@.len() == 27);
    reveal_strlit("com.apple.keylayout.Welsh");
    assert("com.apple.keylayout.Welsh"@.len() == 25);
    reveal_strlit("com.apple.keylayout.Turkmen");
    assert("com.apple.keylayout.Turkmen"@.len() == 27);
    assert("com.apple.keylayout.Swedish"@[20] != "com.apple.keylayout.Turkmen"@[20]);
    reveal_strlit("com.apple.keylayout.Turkish-QWERTY-PC");
    assert("com.apple.keylayout.Turkish-QWERTY-PC"@.len() == 37);
    reveal_strlit("com.apple.keylayout.Sami-PC");
    assert("com.apple.keylayout.Sami-PC"@.len() == 27);
    assert("com.apple.keylayout.Swedish"@[21] != "com.apple.keylayout.Sami-PC"@[21]);
    reveal_strlit("com.apple.keylayout.LatinAmerican");
    assert("com.apple.keylayout.LatinAmerican"@.len() == 33);
    reveal_strlit("com.apple.keylayout.IrishExtended");
    assert("com.apple.keylayout.IrishExtended"@.len() == 33);
    reveal_strlit("com.apple.keylayout.Icelandic");
    assert("com.apple.keylayout.Icelandic"@.len() == 29);
    reveal_strlit("com.apple.keylayout.German-DIN-2137");
    assert("com.apple.keylayout.German-DIN-2137"@.len() == 35);
    reveal_strlit("com.apple.keylayout.FinnishSami-PC");
    assert("com.apple.keylayout.FinnishSami-PC"@.len() == 34);
    reveal_strlit("com.apple.keylayout.FinnishExtended");
    assert("com.apple.keylayout.FinnishExtended"@.len() == 35);
    reveal_strlit("com.apple.keylayout.Faroese");
    assert("com.apple.keylayout.Faroese"@.len() == 27);
    assert("com.apple.keylayout.Swedish"@[20] != "com.apple.keylayout.Faroese"@[20]);
    reveal_strlit("com.apple.keylayout.Croatian-PC");
    assert("com.apple.keylayout.Croatian-PC"@.len() == 31);
    reveal_strlit("com.apple.keylayout.Croatian");
    assert("com.apple.keylayout.Croatian"@.len() == 28);
    reveal_strlit("com.apple.keylayout.Azeri");
    assert("com.apple.keylayout.Azeri"@.len() == 25);
    reveal_strlit("com.apple.keylayout.Albanian");
    assert("com.apple.keylayout.Albanian"@.len() == 28);
    reveal_strlit("com.apple.keylayout.SwissFrench");
    assert("com.apple.keylayout.SwissFrench"@.len() == 31);
}

proof fn lemma_layout_18()
    ensures
        layout_table("com.apple.keylayout.Swedish-Pro"@) == Some(("/^*`'{|)$>&<[\\;(~\"}@]:="@, "´&(<¨Ö*=€:/;ö'å)>^Ä\"äÅ`"@)),
{
    reveal_strlit("com.apple.keylayout.Swedish-Pro");
    assert("com.apple.keylayout.Swedish-Pro"@.len() == 31);
    reveal_strlit("com.apple.keylayout.Welsh");
    assert("com.apple.keylayout.Welsh"@.len() == 25);
    reveal_strlit("com.apple.keylayout.Turkmen");
    assert("com.apple.keylayout.Turkmen"@.len() == 27);
    reveal_strlit("com.apple.keylayout.Turkish-QWERTY-PC");
    assert("com.apple.keylayout.Turkish-QWERTY-PC"@.len() == 37);
    reveal_strlit("com.apple.keylayout.Sami-PC");
    assert("com.apple.keylayout.Sami-PC"@.len() == 27);
    reveal_strlit("com.apple.keylayout.LatinAmerican");
    assert("com.apple.keylayout.LatinAmerican"@.len() == 33);
    reveal_strlit("com.apple.keylayout.IrishExtended");
    assert("com.apple.keylayout.IrishExtended"@.len() == 33);
    reveal_strlit("com.apple.keylayout.Icelandic");
    assert("com.apple.keylayout.Icelandic"@.len() == 29);
    reveal_strlit("com.apple.keylayout.German-DIN-2137");
    assert("com.apple.keylayout.German-DIN-2137"@.len() == 35);
    reveal_strlit("com.apple.keylayout.FinnishSami-PC");
    assert("com.apple.keylayout.FinnishSami-PC"@.len() == 34);
    reveal_strlit("com.apple.keylayout.FinnishExtended");
    assert("com.apple.keylayout.FinnishExtended"@.len() == 35);
    reveal_strlit("com.apple.keylayout.Faroese");
    assert("com.apple.keylayout.Faroese"@.len() == 27);
    reveal_strlit("com.apple.keylayout.Croatian-PC");
    assert("com.apple.keylayout.Croatian-PC"@.len() == 31);
    assert("com.apple.keylayout.Swedish-Pro"@[20] != "com.apple.keylayout.Croatian-PC"@[20]);
    reveal_strlit("com.apple.keylayout.Croatian");
    assert("com.apple.keylayout.Croatian"@.len() == 28);
    reveal_strlit("com.apple.keylayout.Azeri");
    assert("com.apple.keylayout.Azeri"@.len() == 25);
    reveal_strlit("com.apple.keylayout.Albanian");
    assert("com.apple.keylayout.Albanian"@.len() == 28);
    reveal_strlit("com.apple.keylayout.SwissFrench");
    assert("com.apple.keylayout.SwissFrench"@.len() == 31);
    assert("com.apple.keylayout.Swedish-Pro"@[22] != "com.apple.keylayout.SwissFrench"@[22]);
    reveal_strlit("com.apple.keylayout.Swedish");
    assert("com.apple.keylayout.Swedish"@.len() == 27);
}

proof fn lemma_layout_19()
    ensures
        layout_table("com.apple.keylayout.Spanish"@) == Some(("|!\\<{[:;@`/~].'>}\"^"@, "\"¡'¿Ññº´!<.>;ç`Ç:¨/"@)),
{
    reveal_strlit("com.apple.keylayout.Spanish");
    assert("com.apple.keylayout.Spanish"@.len() == 27);
    reveal_strlit("com.apple.keylayout.Welsh");
    assert("com.apple.keylayout.Welsh"@.len() == 25);
    reveal_strlit("com.apple.keylayout.Turkmen");
    assert("com.apple.keylayout.Turkmen"@.len() == 27);
    assert("com.apple.keylayout.Spanish"@[20] != "com.apple.keylayout.Turkmen"@[20]);
    reveal_strlit("com.apple.keylayout.Turkish-QWERTY-PC");
    assert("com.apple.keylayout.Turkish-QWERTY-PC"@.len() == 37);
    reveal_strlit("com.apple.keylayout.Sami-PC");
    assert("com.apple.keylayout.Sami-PC"@.len() == 27);
    assert("com.apple.keylayout.Spanish"@[21] != "com.apple.keylayout.Sami-PC"@[21]);
    reveal_strlit("com.apple.keylayout.LatinAmerican");
    assert("com.apple.keylayout.LatinAmerican"@.len() == 33);
    reveal_strlit("com.apple.keylayout.IrishExtended");
    assert("com.apple.keylayout.IrishExtended"@.len() == 33);
    reveal_strlit("com.apple.keylayout.Icelandic");
    assert("com.apple.keylayout.Icelandic"@.len() == 29);
    reveal_strlit("com.apple.keylayout.German-DIN-2137");
    assert("com.apple.keylayout.German-DIN-2137"@.len() == 35);
    reveal_strlit("com.apple.keylayout.FinnishSami-PC");
    assert("com.apple.keylayout.FinnishSami-PC"@.len() == 34);
    reveal_strlit("com.apple.keylayout.FinnishExtended");
    assert("com.apple.keylayout.FinnishExtended"@.len() == 35);
    reveal_strlit("com.apple.keylayout.Faroese");
    assert("com.apple.keylayout.Faroese"@.len() == 27);
    assert("com.apple.keylayout.Spanish"@[20] != "com.apple.keylayout.Faroese"@[20]);
    reveal_strlit("com.apple.keylayout.Croatian-PC");
    assert("com.apple.keylayout.Croatian-PC"@.len() == 31);
    reveal_strlit("com.apple.keylayout.Croatian");
    assert("com.apple.keylayout.Croatian"@.len() == 28);
    reveal_strlit("com.apple.keylayout.Azeri");
    assert("com.apple.keylayout.Azeri"@.len() == 25);
    reveal_strlit("com.apple.keylayout.Albanian");
    assert("com.apple.keylayout.Albanian"@.len() == 28);
    reveal_strlit("com.apple.keylayout.SwissFrench");
    assert("com.apple.keylayout.SwissFrench"@.len() == 31);
    reveal_strlit("com.apple.keylayout.Swedish");
    assert("com.apple.keylayout.Swedish"@.len() == 27);
    assert("com.apple.keylayout.Spanish"@[21] != "com.apple.keylayout.Swedish"@[21]);
    reveal_strlit("com.apple.keylayout.Swedish-Pro");
    assert("com.apple.keylayout.Swedish-Pro"@.len() == 31);
}

proof fn lemma_layout_20()
    ensures
        layout_table("com.apple.keylayout.Spanish-ISO"@) == Some(("|~`]/:)(<&^>*;#}\"{.\\['@"@, "\"><;.º=)¿/&Ç(´·not found¨Ñç'ñ`\""@)),
{
    reveal_strlit("com.apple.keylayout.Spanish-ISO");
    assert("com.apple.keylayout.Spanish-ISO"@.len() == 31);
    reveal_strlit("com.apple.keylayout.Welsh");
    assert("com.apple.keylayout.Welsh"@.len() == 25);
    reveal_strlit("com.apple.keylayout.Turkmen");
    assert("com.apple.keylayout.Turkmen"@.len() == 27);
    reveal_strlit("com.apple.keylayout.Turkish-QWERTY-PC");
    assert("com.apple.keylayout.Turkish-QWERTY-PC"@.len() == 37);
    reveal_strlit("com.apple.keylayout.Sami-PC");
    assert("com.apple.keylayout.Sami-PC"@.len() == 27);
    reveal_strlit("com.apple.keylayout.LatinAmerican");
    assert("com.apple.keylayout.LatinAmerican"@.len() == 33);
    reveal_strlit("com.apple.keylayout.IrishExtended");
    assert("com.apple.keylayout.IrishExtended"@.len() == 33);
    reveal_strlit("com.apple.keylayout.Icelandic");
    assert("com.apple.keylayout.Icelandic"@.len() == 29);
    reveal_strlit("com.apple.keylayout.German-DIN-2137");
    assert("com.apple.keylayout.German-DIN-2137"@.len() == 35);
    reveal_strlit("com.apple.keylayout.FinnishSami-PC");
    assert("com.apple.keylayout.FinnishSami-PC"@.len() == 34);
    reveal_strlit("com.apple.keylayout.FinnishExtended");
    assert("com.apple.keylayout.FinnishExtended"@.len() == 35);
    reveal_strlit("com.apple.keylayout.Faroese");
    assert("com.apple.keylayout.Faroese"@.len() == 27);
    reveal_strlit("com.apple.keylayout.Croatian-PC");
    assert("com.apple.keylayout.Croatian-PC"@.len() == 31);
    assert("com.apple.keylayout.Spanish-ISO"@[20] != "com.apple.keylayout.Croatian-PC"@[20]);
    reveal_strlit("com.apple.keylayout.Croatian");
    assert("com.apple.keylayout.Croatian"@.len() == 28);
    reveal_strlit("com.apple.keylayout.Azeri");
    assert("com.apple.keylayout.Azeri"@.len() == 25);
    reveal_strlit("com.apple.keylayout.Albanian");
    assert("com.apple.keylayout.Albanian"@.len() == 28);
    reveal_strlit("com.apple.keylayout.SwissFrench");
    assert("com.apple.keylayout.SwissFrench"@.len() == 31);
    assert("com.apple.keylayout.Spanish-ISO"@[21] != "com.apple.keylayout.SwissFrench"@[21]);
    reveal_strlit("com.apple.keylayout.Swedish");
    assert("com.apple.keylayout.Swedish"@.len() == 27);
    reveal_strlit("com.apple.keylayout.Swedish-Pro");
    assert("com.apple.keylayout.Swedish-Pro"@.len() == 31);
    assert("com.apple.keylayout.Spanish-ISO"@[21] != "com.apple.keylayout.Swedish-Pro"@[21]);
    reveal_strlit("com.apple.keylayout.Spanish");
    assert("com.apple.keylayout.Spanish"@.len() == 27);
}

proof fn lemma_layout_21()
    ensures
        layout_table("com.apple.keylayout.Portuguese"@) == Some((")`/'^\"<];>[:{@}(&*=~"@, "=<'´&`;~º:çªÇ\"^)/(*>"@)),
{
    reveal_strlit("com.apple.keylayout.Portuguese");
    assert("com.apple.keylayout.Portuguese"@.len() == 30);
    reveal_strlit("com.apple.keylayout.Welsh");
    assert("com.apple.keylayout.Welsh"@.len() == 25);
    reveal_strlit("com.apple.keylayout.Turkmen");
    assert("com.apple.keylayout.Turkmen"@.len() == 27);
    reveal_strlit("com.apple.keylayout.Turkish-QWERTY-PC");
    assert("com.apple.keylayout.Turkish-QWERTY-PC"@.len() == 37);
    reveal_strlit("com.apple.keylayout.Sami-PC");
    assert("com.apple.keylayout.Sami-PC"@.len() == 27);
    reveal_strlit("com.apple.keylayout.LatinAmerican");
    assert("com.apple.keylayout.LatinAmerican"@.len() == 33);
    reveal_strlit("com.apple.keylayout.IrishExtended");
    assert("com.apple.keylayout.IrishExtended"@.len() == 33);
    reveal_strlit("com.apple.keylayout.Icelandic");
    assert("com.apple.keylayout.Icelandic"@.len() == 29);
    reveal_strlit("com.apple.keylayout.German-DIN-2137");
    assert("com.apple.keylayout.German-DIN-2137"@.len() == 35);
    reveal_strlit("com.apple.keylayout.FinnishSami-PC");
    assert("com.apple.keylayout.FinnishSami-PC"@.len() == 34);
    reveal_strlit("com.apple.keylayout.FinnishExtended");
    assert("com.apple.keylayout.FinnishExtended"@.len() == 35);
    reveal_strlit("com.apple.keylayout.Faroese");
    assert("com.apple.keylayout.Faroese"@.len() == 27);
    reveal_strlit("com.apple.keylayout.Croatian-PC");
    assert("com.apple.keylayout.Croatian-PC"@.len() == 31);
    reveal_strlit("com.apple.keylayout.Croatian");
    assert("com.apple.keylayout.Croatian"@.len() == 28);
    reveal_strlit("com.apple.keylayout.Azeri");
    assert("com.apple.keylayout.Azeri"@.len() == 25);
    reveal_strlit("com.apple.keylayout.Albanian");
    assert("com.apple.keylayout.Albanian"@.len() == 28);
    reveal_strlit("com.apple.keylayout.SwissFrench");
    assert("com.apple.keylayout.SwissFrench"@.len() == 31);
    reveal_strlit("com.apple.keylayout.Swedish");
    assert("com.apple.keylayout.Swedish"@.len() == 27);
    reveal_strlit("com.apple.keylayout.Swedish-Pro");
    assert("com.apple.keylayout.Swedish-Pro"@.len() == 31);
    reveal_strlit("com.apple.keylayout.Spanish");
    assert("com.apple.keylayout.Spanish"@.len() == 27);
    reveal_strlit("com.apple.keylayout.Spanish-ISO");
    assert("com.apple.keylayout.Spanish-ISO"@.len() == 31);
}

proof fn lemma_layout_22()
    ensures
        layout_table("com.apple.keylayout.Italian"@) == Some(("*7};8:!5%(1&4]^\\6)32>.</0|$,'{[`\"~9#@"@, "8)*ò£!1ç59&7($6§è0'\"/:.,é°4;ù^ì<%>à32"@)),
{
    reveal_strlit("com.apple.keylayout.Italian");
    assert("com.apple.keylayout.Italian"@.len() == 27);
    reveal_strlit("com.apple.keylayout.Welsh");
    assert("com.apple.keylayout.Welsh"@.len() == 25);
    reveal_strlit("com.apple.keylayout.Turkmen");
    assert("com.apple.keylayout.Turkmen"@.len() == 27);
    assert("com.apple.keylayout.Italian"@[20] != "com.apple.keylayout.Turkmen"@[20]);
    reveal_strlit("com.apple.keylayout.Turkish-QWERTY-PC");
    assert("com.apple.keylayout.Turkish-QWERTY-PC"@.len() == 37);
    reveal_strlit("com.apple.keylayout.Sami-PC");
    assert("com.apple.keylayout.Sami-PC"@.len() == 27);
    assert("com.apple.keylayout.Italian"@[20] != "com.apple.keylayout.Sami-PC"@[20]);
    reveal_strlit("com.apple.keylayout.LatinAmerican");
    assert("com.apple.keylayout.LatinAmerican"@.len() == 33);
    reveal_strlit("com.apple.keylayout.IrishExtended");
    assert("com.apple.keylayout.IrishExtended"@.len() == 33);
    reveal_strlit("com.apple.keylayout.Icelandic");
    assert("com.apple.keylayout.Icelandic"@.len() == 29);
    reveal_strlit("com.apple.keylayout.German-DIN-2137");
    assert("com.apple.keylayout.German-DIN-2137"@.len() == 35);
    reveal_strlit("com.apple.keylayout.FinnishSami-PC");
    assert("com.apple.keylayout.FinnishSami-PC"@.len() == 34);
    reveal_strlit("com.apple.keylayout.FinnishExtended");
    assert("com.apple.keylayout.FinnishExtended"@.len() == 35);
    reveal_strlit("com.apple.keylayout.Faroese");
    assert("com.apple.keylayout.Faroese"@.len() == 27);
    assert("com.apple.keylayout.Italian"@[20] != "com.apple.keylayout.Faroese"@[20]);
    reveal_strlit("com.apple.keylayout.Croatian-PC");
    assert("com.apple.keylayout.Croatian-PC"@.len() == 31);
    reveal_strlit("com.apple.keylayout.Croatian");
    assert("com.apple.keylayout.Croatian"@.len() == 28);
    reveal_strlit("com.apple.keylayout.Azeri");
    assert("com.apple.keylayout.Azeri"@.len() == 25);
    reveal_strlit("com.apple.keylayout.Albanian");
    assert("com.apple.keylayout.Albanian"@.len() == 28);
    reveal_strlit("com.apple.keylayout.SwissFrench");
    assert("com.apple.keylayout.SwissFrench"@.len() == 31);
    reveal_strlit("com.apple.keylayout.Swedish");
    assert("com.apple.keylayout.Swedish"@.len() == 27);
    assert("com.apple.keylayout.Italian"@[20] != "com.apple.keylayout.Swedish"@[20]);
    reveal_strlit("com.apple.keylayout.Swedish-Pro");
    assert("com.apple.keylayout.Swedish-Pro"@.len() == 31);
    reveal_strlit("com.apple.keylayout.Spanish");
    assert("com.apple.keylayout.Spanish"@.len() == 27);
    assert("com.apple.keylayout.Italian"@[20] != "com.apple.keylayout.Spanish"@[20]);
    reveal_strlit("com.apple.keylayout.Spanish-ISO");
    assert("com.apple.keylayout.Spanish-ISO"@.len() == 31);
    reveal_strlit("com.apple.keylayout.Portuguese");
    assert("com.apple.keylayout.Portuguese"@.len() == 30);
}

proof fn lemma_layout_23()
    ensures
        layout_table("com.apple.keylayout.Italian-Pro"@) == Some(("/:@[]'\\=){;|#<\"(*^&`}>~"@, "'é\"òàìù*=çè§£;^)(&/<°:>"@)),
{
    reveal_strlit("com.apple.keylayout.Italian-Pro");
    assert("com.apple.keylayout.Italian-Pro"@.len() == 31);
    reveal_strlit("com.apple.keylayout.Welsh");
    assert("com.apple.keylayout.Welsh"@.len() == 25);
    reveal_strlit("com.apple.keylayout.Turkmen");
    assert("com.apple.keylayout.Turkmen"@.len() == 27);
    reveal_strlit("com.apple.keylayout.Turkish-QWERTY-PC");
    assert("com.apple.keylayout.Turkish-QWERTY-PC"@.len() == 37);
    reveal_strlit("com.apple.keylayout.Sami-PC");
    assert("com.apple.keylayout.Sami-PC"@.len() == 27);
    reveal_strlit("com.apple.keylayout.LatinAmerican");
    assert("com.apple.keylayout.LatinAmerican"@.len() == 33);
    reveal_strlit("com.apple.keylayout.IrishExtended");
    assert("com.apple.keylayout.IrishExtended"@.len() == 33);
    reveal_strlit("com.apple.keylayout.Icelandic");
    assert("com.apple.keylayout.Icelandic"@.len() == 29);
    reveal_strlit("com.apple.keylayout.German-DIN-2137");
    assert("com.apple.keylayout.German-DIN-2137"@.len() == 35);
    reveal_strlit("com.apple.keylayout.FinnishSami-PC");
    assert("com.apple.keylayout.FinnishSami-PC"@.len() == 34);
    reveal_strlit("com.apple.keylayout.FinnishExtended");
    assert("com.apple.keylayout.FinnishExtended"@.len() == 35);
    reveal_strlit("com.apple.keylayout.Faroese");
    assert("com.apple.keylayout.Faroese"@.len() == 27);
    reveal_strlit("com.apple.keylayout.Croatian-PC");
    assert("com.apple.keylayout.Croatian-PC"@.len() == 31);
    assert("com.apple.keylayout.Italian-Pro"@[20] != "com.apple.keylayout.Croatian-PC"@[20]);
    reveal_strlit("com.apple.keylayout.Croatian");
    assert("com.apple.keylayout.Croatian"@.len() == 28);
    reveal_strlit("com.apple.keylayout.Azeri");
    assert("com.apple.keylayout.Azeri"@.len() == 25);
    reveal_strlit("com.apple.keylayout.Albanian");
    assert("com.apple.keylayout.Albanian"@.len() == 28);
    reveal_strlit("com.apple.keylayout.SwissFrench");
    assert("com.apple.keylayout.SwissFrench"@.len() == 31);
    assert("com.apple.keylayout.Italian-Pro"@[20] != "com.apple.keylayout.SwissFrench"@[20]);
    reveal_strlit("com.apple.keylayout.Swedish");
    assert("com.apple.keylayout.Swedish"@.len() == 27);
    reveal_strlit("com.apple.keylayout.Swedish-Pro");
    assert("com.apple.keylayout.Swedish-Pro"@.len() == 31);
    assert("com.apple.keylayout.Italian-Pro"@[20] != "com.apple.keylayout.Swedish-Pro"@[20]);
    reveal_strlit("com.apple.keylayout.Spanish");
    assert("com.apple.keylayout.Spanish"@.len() == 27);
    reveal_strlit("com.apple.keylayout.Spanish-ISO");
    assert("com.apple.keylayout.Spanish-ISO"@.len() == 31);
    assert("com.apple.keylayout.Italian-Pro"@[20] != "com.apple.keylayout.Spanish-ISO"@[20]);
    reveal_strlit("com.apple.keylayout.Portuguese");
    assert("com.apple.keylayout.Portuguese"@.len() == 30);
    reveal_strlit("com.apple.keylayout.Italian");
    assert("com.apple.keylayout.Italian"@.len() == 27);
}

proof fn lemma_layout_24()
    ensures
        layout_table("com.apple.keylayout.Irish"@) == Some(("#"@, "£"@)),
{
    reveal_strlit("com.apple.keylayout.Irish");
    assert("com.apple.keylayout.Irish"@.len() == 25);
    reveal_strlit("com.apple.keylayout.Welsh");
    assert("com.apple.keylayout.Welsh"@.len() == 25);
    assert("com.apple.keylayout.Irish"@[20] != "com.apple.keylayout.Welsh"@[20]);
    reveal_strlit("com.apple.keylayout.Turkmen");
    assert("com.apple.keylayout.Turkmen"@.len() == 27);
    reveal_strlit("com.apple.keylayout.Turkish-QWERTY-PC");
    assert("com.apple.keylayout.Turkish-QWERTY-PC"@.len() == 37);
    reveal_strlit("com.apple.keylayout.Sami-PC");
    assert("com.apple.keylayout.Sami-PC"@.len() == 27);
    reveal_strlit("com.apple.keylayout.LatinAmerican");
    assert("com.apple.keylayout.LatinAmerican"@.len() == 33);
    reveal_strlit("com.apple.keylayout.IrishExtended");
    assert("com.apple.keylayout.IrishExtended"@.len() == 33);
    reveal_strlit("com.apple.keylayout.Icelandic");
    assert("com.apple.keylayout.Icelandic"@.len() == 29);
    reveal_strlit("com.apple.keylayout.German-DIN-2137");
    assert("com.apple.keylayout.German-DIN-2137"@.len() == 35);
    reveal_strlit("com.apple.keylayout.FinnishSami-PC");
    assert("com.apple.keylayout.FinnishSami-PC"@.len() == 34);
    reveal_strlit("com.apple.keylayout.FinnishExtended");
    assert("com.apple.keylayout.FinnishExtended"@.len() == 35);
    reveal_strlit("com.apple.keylayout.Faroese");
    assert("com.apple.keylayout.Faroese"@.len() == 27);
    reveal_strlit("com.apple.keylayout.Croatian-PC");
    assert("com.apple.keylayout.Croatian-PC"@.len() == 31);
    reveal_strlit("com.apple.keylayout.Croatian");
    assert("com.apple.keylayout.Croatian"@.len() == 28);
    reveal_strlit("com.apple.keylayout.Azeri");
    assert("com.apple.keylayout.Azeri"@.len() == 25);
    assert("com.apple.keylayout.Irish"@[20] != "com.apple.keylayout.Azeri"@[20]);
    reveal_strlit("com.apple.keylayout.Albanian");
    assert("com.apple.keylayout.Albanian"@.len() == 28);
    reveal_strlit("com.apple.keylayout.SwissFrench");
    assert("com.apple.keylayout.SwissFrench"@.len() == 31);
    reveal_strlit("com.apple.keylayout.Swedish");
    assert("com.apple.keylayout.Swedish"@.len() == 27);
    reveal_strlit("com.apple.keylayout.Swedish-Pro");
    assert("com.apple.keylayout.Swedish-Pro"@.len() == 31);
    reveal_strlit("com.apple.keylayout.Spanish");
    assert("com.apple.keylayout.Spanish"@.len() == 27);
    reveal_strlit("com.apple.keylayout.Spanish-ISO");
    assert("com.apple.keylayout.Spanish-ISO"@.len() == 31);
    reveal_strlit("com.apple.keylayout.Portuguese");
    assert("com.apple.keylayout.Portuguese"@.len() == 30);
    reveal_strlit("com.apple.keylayout.Italian");
    assert("com.apple.keylayout.Italian"@.len() == 27);
    reveal_strlit("com.apple.keylayout.Italian-Pro");
    assert("com.apple.keylayout.Italian-Pro"@.len() == 31);
}

proof fn lemma_layout_25()
    ensures
        layout_table("com.apple.keylayout.German"@) == Some(("=`#'}:)/\"^&]*{;|[<(>~@\\"@, "*<§´ÄÜ=ß`&/ä(Öü'ö;):>\"#"@)),
{
    reveal_strlit("com.apple.keylayout.German");
    assert("com.apple.keylayout.German"@.len() == 26);
    reveal_strlit("com.apple.keylayout.Welsh");
    assert("com.apple.keylayout.Welsh"@.len() == 25);
    reveal_strlit("com.apple.keylayout.Turkmen");
    assert("com.apple.keylayout.Turkmen"@.len() == 27);
    reveal_strlit("com.apple.keylayout.Turkish-QWERTY-PC");
    assert("com.apple.keylayout.Turkish-QWERTY-PC"@.len() == 37);
    reveal_strlit("com.apple.keylayout.Sami-PC");
    assert("com.apple.keylayout.Sami-PC"@.len() == 27);
    reveal_strlit("com.apple.keylayout.LatinAmerican");
    assert("com.apple.keylayout.LatinAmerican"@.len() == 33);
    reveal_strlit("com.apple.keylayout.IrishExtended");
    assert("com.apple.keylayout.IrishExtended"@.len() == 33);
    reveal_strlit("com.apple.keylayout.Icelandic");
    assert("com.apple.keylayout.Icelandic"@.len() == 29);
    reveal_strlit("com.apple.keylayout.German-DIN-2137");
    assert("com.apple.keylayout.German-DIN-2137"@.len() == 35);
    reveal_strlit("com.apple.keylayout.FinnishSami-PC");
    assert("com.apple.keylayout.FinnishSami-PC"@.len() == 34);
    reveal_strlit("com.apple.keylayout.FinnishExtended");
    assert("com.apple.keylayout.FinnishExtended"@.len() == 35);
    reveal_strlit("com.apple.keylayout.Faroese");
    assert("com.apple.keylayout.Faroese"@.len() == 27);
    reveal_strlit("com.apple.keylayout.Croatian-PC");
    assert("com.apple.keylayout.Croatian-PC"@.len() == 31);
    reveal_strlit("com.apple.keylayout.Croatian");
    assert("com.apple.keylayout.Croatian"@.len() == 28);
    reveal_strlit("com.apple.keylayout.Azeri");
    assert("com.apple.keylayout.Azeri"@.len() == 25);
    reveal_strlit("com.apple.keylayout.Albanian");
    assert("com.apple.keylayout.Albanian"@.len() == 28);
    reveal_strlit("com.apple.keylayout.SwissFrench");
    assert("com.apple.keylayout.SwissFrench"@.len() == 31);
    reveal_strlit("com.apple.keylayout.Swedish");
    assert("com.apple.keylayout.Swedish"@.len() == 27);
    reveal_strlit("com.apple.keylayout.Swedish-Pro");
    assert("com.apple.keylayout.Swedish-Pro"@.len() == 31);
    reveal_strlit("com.apple.keylayout.Spanish");
    assert("com.apple.keylayout.Spanish"@.len() == 27);
    reveal_strlit("com.apple.keylayout.Spanish-ISO");
    assert("com.apple.keylayout.Spanish-ISO"@.len() == 31);
    reveal_strlit("com.apple.keylayout.Portuguese");
    assert("com.apple.keylayout.Portuguese"@.len() == 30);
    reveal_strlit("com.apple.keylayout.Italian");
    assert("com.apple.keylayout.Italian"@.len() == 27);
    reveal_strlit("com.apple.keylayout.Italian-Pro");
    assert("com.apple.keylayout.Italian-Pro"@.len() == 31);
    reveal_strlit("com.apple.keylayout.Irish");
    assert("com.apple.keylayout.Irish"@.len() == 25);
}

proof fn lemma_layout_26()
    ensures
        layout_table("com.apple.keylayout.French"@) == Some(("*}7;8:!5%(1&4]\\^6)32>.</0|${'[`\"~9#@"@, "8*è)!°1(59&7'$`6§0\"é/;.:à£4¨ù^<%>ç32"@)),
{
    reveal_strlit("com.apple.keylayout.French");
    assert("com.apple.keylayout.French"@.len() == 26);
    reveal_strlit("com.apple.keylayout.Welsh");
    assert("com.apple.keylayout.Welsh"@.len() == 25);
    reveal_strlit("com.apple.keylayout.Turkmen");
    assert("com.apple.keylayout.Turkmen"@.len() == 27);
    reveal_strlit("com.apple.keylayout.Turkish-QWERTY-PC");
    assert("com.apple.keylayout.Turkish-QWERTY-PC"@.len() == 37);
    reveal_strlit("com.apple.keylayout.Sami-PC");
    assert("com.apple.keylayout.Sami-PC"@.len() == 27);
    reveal_strlit("com.apple.keylayout.LatinAmerican");
    assert("com.apple.keylayout.LatinAmerican"@.len() == 33);
    reveal_strlit("com.apple.keylayout.IrishExtended");
    assert("com.apple.keylayout.IrishExtended"@.len() == 33);
    reveal_strlit("com.apple.keylayout.Icelandic");
    assert("com.apple.keylayout.Icelandic"@.len() == 29);
    reveal_strlit("com.apple.keylayout.German-DIN-2137");
    assert("com.apple.keylayout.German-DIN-2137"@.len() == 35);
    reveal_strlit("com.apple.keylayout.FinnishSami-PC");
    assert("com.apple.keylayout.FinnishSami-PC"@.len() == 34);
    reveal_strlit("com.apple.keylayout.FinnishExtended");
    assert("com.apple.keylayout.FinnishExtended"@.len() == 35);
    reveal_strlit("com.apple.keylayout.Faroese");
    assert("com.apple.keylayout.Faroese"@.len() == 27);
    reveal_strlit("com.apple.keylayout.Croatian-PC");
    assert("com.apple.keylayout.Croatian-PC"@.len() == 31);
    reveal_strlit("com.apple.keylayout.Croatian");
    assert("com.apple.keylayout.Croatian"@.len() == 28);
    reveal_strlit("com.apple.keylayout.Azeri");
    assert("com.apple.keylayout.Azeri"@.len() == 25);
    reveal_strlit("com.apple.keylayout.Albanian");
    assert("com.apple.keylayout.Albanian"@.len() == 28);
    reveal_strlit("com.apple.keylayout.SwissFrench");
    assert("com.apple.keylayout.SwissFrench"@.len() == 31);
    reveal_strlit("com.apple.keylayout.Swedish");
    assert("com.apple.keylayout.Swedish"@.len() == 27);
    reveal_strlit("com.apple.keylayout.Swedish-Pro");
    assert("com.apple.keylayout.Swedish-Pro"@.len() == 31);
    reveal_strlit("com.apple.keylayout.Spanish");
    assert("com.apple.keylayout.Spanish"@.len() == 27);
    reveal_strlit("com.apple.keylayout.Spanish-ISO");
    assert("com.apple.keylayout.Spanish-ISO"@.len() == 31);
    reveal_strlit("com.apple.keylayout.Portuguese");
    assert("com.apple.keylayout.Portuguese"@.len() == 30);
    reveal_strlit("com.apple.keylayout.Italian");
    assert("com.apple.keylayout.Italian"@.len() == 27);
    reveal_strlit("com.apple.keylayout.Italian-Pro");
    assert("com.apple.keylayout.Italian-Pro"@.len() == 31);
    reveal_strlit("com.apple.keylayout.Irish");
    assert("com.apple.keylayout.Irish"@.len() == 25);
    reveal_strlit("com.apple.keylayout.German");
    assert("com.apple.keylayout.German"@.len() == 26);
    assert("com.apple.keylayout.French"@[20] != "com.apple.keylayout.German"@[20]);
}

proof fn lemma_layout_27()
    ensures
        layout_table("com.apple.keylayout.French-numerical"@) == Some(("|!52;][>&@\"%'{)<~7.1/^(}*8#0$9`6\\3:4"@, "£1(é)$^/72%5ù¨0.>è;&:69*8!3à4ç<§`\"°'"@)),
{
    reveal_strlit("com.apple.keylayout.French-numerical");
    assert("com.apple.keylayout.French-numerical"@.len() == 36);
    reveal_strlit("com.apple.keylayout.Welsh");
    assert("com.apple.keylayout.Welsh"@.len() == 25);
    reveal_strlit("com.apple.keylayout.Turkmen");
    assert("com.apple.keylayout.Turkmen"@.len() == 27);
    reveal_strlit("com.apple.keylayout.Turkish-QWERTY-PC");
    assert("com.apple.keylayout.Turkish-QWERTY-PC"@.len() == 37);
    reveal_strlit("com.apple.keylayout.Sami-PC");
    assert("com.apple.keylayout.Sami-PC"@.len() == 27);
    reveal_strlit("com.apple.keylayout.LatinAmerican");
    assert("com.apple.keylayout.LatinAmerican"@.len() == 33);
    reveal_strlit("com.apple.keylayout.IrishExtended");
    assert("com.apple.keylayout.IrishExtended"@.len() == 33);
    reveal_strlit("com.apple.keylayout.Icelandic");
    assert("com.apple.keylayout.Icelandic"@.len() == 29);
    reveal_strlit("com.apple.keylayout.German-DIN-2137");
    assert("com.apple.keylayout.German-DIN-2137"@.len() == 35);
    reveal_strlit("com.apple.keylayout.FinnishSami-PC");
    assert("com.apple.keylayout.FinnishSami-PC"@.len() == 34);
    reveal_strlit("com.apple.keylayout.FinnishExtended");
    assert("com.apple.keylayout.FinnishExtended"@.len() == 35);
    reveal_strlit("com.apple.keylayout.Faroese");
    assert("com.apple.keylayout.Faroese"@.len() == 27);
    reveal_strlit("com.apple.keylayout.Croatian-PC");
    assert("com.apple.keylayout.Croatian-PC"@.len() == 31);
    reveal_strlit("com.apple.keylayout.Croatian");
    assert("com.apple.keylayout.Croatian"@.len() == 28);
    reveal_strlit("com.apple.keylayout.Azeri");
    assert("com.apple.keylayout.Azeri"@.len() == 25);
    reveal_strlit("com.apple.keylayout.Albanian");
    assert("com.apple.keylayout.Albanian"@.len() == 28);
    reveal_strlit("com.apple.keylayout.SwissFrench");
    assert("com.apple.keylayout.SwissFrench"@.len() == 31);
    reveal_strlit("com.apple.keylayout.Swedish");
    assert("com.apple.keylayout.Swedish"@.len() == 27);
    reveal_strlit("com.apple.keylayout.Swedish-Pro");
    assert("com.apple.keylayout.Swedish-Pro"@.len() == 31);
    reveal_strlit("com.apple.keylayout.Spanish");
    assert("com.apple.keylayout.Spanish"@.len() == 27);
    reveal_strlit("com.apple.keylayout.Spanish-ISO");
    assert("com.apple.keylayout.Spanish-ISO"@.len() == 31);
    reveal_strlit("com.apple.keylayout.Portuguese");
    assert("com.apple.keylayout.Portuguese"@.len() == 30);
    reveal_strlit("com.apple.keylayout.Italian");
    assert("com.apple.keylayout.Italian"@.len() == 27);
    reveal_strlit("com.apple.keylayout.Italian-Pro");
    assert("com.apple.keylayout.Italian-Pro"@.len() == 31);
    reveal_strlit("com.apple.keylayout.Irish");
    assert("com.apple.keylayout.Irish"@.len() == 25);
    reveal_strlit("com.apple.keylayout.German");
    assert("com.apple.keylayout.German"@.len() == 26);
    reveal_strlit("com.apple.keylayout.French");
    assert("com.apple.keylayout.French"@.len() == 26);
}

proof fn lemma_layout_28()
    ensures
        layout_table("com.apple.keylayout.French-PC"@) == Some(("!&\"_$}/72>8]#:31)*<%4;6\\-{['@(0|5.`9~^"@, "17%°4£:èé/_$3§\"&08.5'!-*)¨^ù29àμ(;<ç>6"@)),
{
    reveal_strlit("com.apple.keylayout.French-PC");
    assert("com.apple.keylayout.French-PC"@.len() == 29);
    reveal_strlit("com.apple.keylayout.Welsh");
    assert("com.apple.keylayout.Welsh"@.len() == 25);
    reveal_strlit("com.apple.keylayout.Turkmen");
    assert("com.apple.keylayout.Turkmen"@.len() == 27);
    reveal_strlit("com.apple.keylayout.Turkish-QWERTY-PC");
    assert("com.apple.keylayout.Turkish-QWERTY-PC"@.len() == 37);
    reveal_strlit("com.apple.keylayout.Sami-PC");
    assert("com.apple.keylayout.Sami-PC"@.len() == 27);
    reveal_strlit("com.apple.keylayout.LatinAmerican");
    assert("com.apple.keylayout.LatinAmerican"@.len() == 33);
    reveal_strlit("com.apple.keylayout.IrishExtended");
    assert("com.apple.keylayout.IrishExtended"@.len() == 33);
    reveal_strlit("com.apple.keylayout.Icelandic");
    assert("com.apple.keylayout.Icelandic"@.len() == 29);
    assert("com.apple.keylayout.French-PC"@[20] != "com.apple.keylayout.Icelandic"@[20]);
    reveal_strlit("com.apple.keylayout.German-DIN-2137");
    assert("com.apple.keylayout.German-DIN-2137"@.len() == 35);
    reveal_strlit("com.apple.keylayout.FinnishSami-PC");
    assert("com.apple.keylayout.FinnishSami-PC"@.len() == 34);
    reveal_strlit("com.apple.keylayout.FinnishExtended");
    assert("com.apple.keylayout.FinnishExtended"@.len() == 35);
    reveal_strlit("com.apple.keylayout.Faroese");
    assert("com.apple.keylayout.Faroese"@.len() == 27);
    reveal_strlit("com.apple.keylayout.Croatian-PC");
    assert("com.apple.keylayout.Croatian-PC"@.len() == 31);
    reveal_strlit("com.apple.keylayout.Croatian");
    assert("com.apple.keylayout.Croatian"@.len() == 28);
    reveal_strlit("com.apple.keylayout.Azeri");
    assert("com.apple.keylayout.Azeri"@.len() == 25);
    reveal_strlit("com.apple.keylayout.Albanian");
    assert("com.apple.keylayout.Albanian"@.len() == 28);
    reveal_strlit("com.apple.keylayout.SwissFrench");
    assert("com.apple.keylayout.SwissFrench"@.len() == 31);
    reveal_strlit("com.apple.keylayout.Swedish");
    assert("com.apple.keylayout.Swedish"@.len() == 27);
    reveal_strlit("com.apple.keylayout.Swedish-Pro");
    assert("com.apple.keylayout.Swedish-Pro"@.len() == 31);
    reveal_strlit("com.apple.keylayout.Spanish");
    assert("com.apple.keylayout.Spanish"@.len() == 27);
    reveal_strlit("com.apple.keylayout.Spanish-ISO");
    assert("com.apple.keylayout.Spanish-ISO"@.len() == 31);
    reveal_strlit("com.apple.keylayout.Portuguese");
    assert("com.apple.keylayout.Portuguese"@.len() == 30);
    reveal_strlit("com.apple.keylayout.Italian");
    assert("com.apple.keylayout.Italian"@.len() == 27);
    reveal_strlit("com.apple.keylayout.Italian-Pro");
    assert("com.apple.keylayout.Italian-Pro"@.len() == 31);
    reveal_strlit("com.apple.keylayout.Irish");
    assert("com.apple.keylayout.Irish"@.len() == 25);
    reveal_strlit("com.apple.keylayout.German");
    assert("com.apple.keylayout.German"@.len() == 26);
    reveal_strlit("com.apple.keylayout.French");
    assert("com.apple.keylayout.French"@.len() == 26);
    reveal_strlit("com.apple.keylayout.French-numerical");
    assert("com.apple.keylayout.French-numerical"@.len() == 36);
}

proof fn lemma_layout_29()
    ensures
        layout_table("com.apple.keylayout.Finnish"@) == Some(("/^*`)'{|$>&<[\\~;(\"}@]:="@, "´&(<=¨Ö*€:/;ö'>å)^Ä\"äÅ`"@)),
{
    reveal_strlit("com.apple.keylayout.Finnish");
    assert("com.apple.keylayout.Finnish"@.len() == 27);
    reveal_strlit("com.apple.keylayout.Welsh");
    assert("com.apple.keylayout.Welsh"@.len() == 25);
    reveal_strlit("com.apple.keylayout.Turkmen");
    assert("com.apple.keylayout.Turkmen"@.len() == 27);
    assert("com.apple.keylayout.Finnish"@[20] != "com.apple.keylayout.Turkmen"@[20]);
    reveal_strlit("com.apple.keylayout.Turkish-QWERTY-PC");
    assert("com.apple.keylayout.Turkish-QWERTY-PC"@.len() == 37);
    reveal_strlit("com.apple.keylayout.Sami-PC");
    assert("com.apple.keylayout.Sami-PC"@.len() == 27);
    assert("com.apple.keylayout.Finnish"@[20] != "com.apple.keylayout.Sami-PC"@[20]);
    reveal_strlit("com.apple.keylayout.LatinAmerican");
    assert("com.apple.keylayout.LatinAmerican"@.len() == 33);
    reveal_strlit("com.apple.keylayout.IrishExtended");
    assert("com.apple.keylayout.IrishExtended"@.len() == 33);
    reveal_strlit("com.apple.keylayout.Icelandic");
    assert("com.apple.keylayout.Icelandic"@.len() == 29);
    reveal_strlit("com.apple.keylayout.German-DIN-2137");
    assert("com.apple.keylayout.German-DIN-2137"@.len() == 35);
    reveal_strlit("com.apple.keylayout.FinnishSami-PC");
    assert("com.apple.keylayout.FinnishSami-PC"@.len() == 34);
    reveal_strlit("com.apple.keylayout.FinnishExtended");
    assert("com.apple.keylayout.FinnishExtended"@.len() == 35);
    reveal_strlit("com.apple.keylayout.Faroese");
    assert("com.apple.keylayout.Faroese"@.len() == 27);
    assert("com.apple.keylayout.Finnish"@[21] != "com.apple.keylayout.Faroese"@[21]);
    reveal_strlit("com.apple.keylayout.Croatian-PC");
    assert("com.apple.keylayout.Croatian-PC"@.len() == 31);
    reveal_strlit("com.apple.keylayout.Croatian");
    assert("com.apple.keylayout.Croatian"@.len() == 28);
    reveal_strlit("com.apple.keylayout.Azeri");
    assert("com.apple.keylayout.Azeri"@.len() == 25);
    reveal_strlit("com.apple.keylayout.Albanian");
    assert("com.apple.keylayout.Albanian"@.len() == 28);
    reveal_strlit("com.apple.keylayout.SwissFrench");
    assert("com.apple.keylayout.SwissFrench"@.len() == 31);
    reveal_strlit("com.apple.keylayout.Swedish");
    assert("com.apple.keylayout.Swedish"@.len() == 27);
    assert("com.apple.keylayout.Finnish"@[20] != "com.apple.keylayout.Swedish"@[20]);
    reveal_strlit("com.apple.keylayout.Swedish-Pro");
    assert("com.apple.keylayout.Swedish-Pro"@.len() == 31);
    reveal_strlit("com.apple.keylayout.Spanish");
    assert("com.apple.keylayout.Spanish"@.len() == 27);
    assert("com.apple.keylayout.Finnish"@[20] != "com.apple.keylayout.Spanish"@[20]);
    reveal_strlit("com.apple.keylayout.Spanish-ISO");
    assert("com.apple.keylayout.Spanish-ISO"@.len() == 31);
    reveal_strlit("com.apple.keylayout.Portuguese");
    assert("com.apple.keylayout.Portuguese"@.len() == 30);
    reveal_strlit("com.apple.keylayout.Italian");
    assert("com.apple.keylayout.Italian"@.len() == 27);
    assert("com.apple.keylayout.Finnish"@[20] != "com.apple.keylayout.Italian"@[20]);
    reveal_strlit("com.apple.keylayout.Italian-Pro");
    assert("com.apple.keylayout.Italian-Pro"@.len() == 31);
    reveal_strlit("com.apple.keylayout.Irish");
    assert("com.apple.keylayout.Irish"@.len() == 25);
    reveal_strlit("com.apple.keylayout.German");
    assert("com.apple.keylayout.German"@.len() == 26);
    reveal_strlit("com.apple.keylayout.French");
    assert("com.apple.keylayout.French"@.len() == 26);
    reveal_strlit("com.apple.keylayout.French-numerical");
    assert("com.apple.keylayout.French-numerical"@.len() == 36);
    reveal_strlit("com.apple.keylayout.French-PC");
    assert("com.apple.keylayout.French-PC"@.len() == 29);
}

proof fn lemma_layout_30()
    ensures
        layout_table("com.apple.keylayout.Danish"@) == Some(("=[;'`{}|>]*^(&@~)<\\/$\":"@, "`æå¨<ÆØ*:ø(&)/\">=;'´€^Å"@)),
{
    reveal_strlit("com.apple.keylayout.Danish");
    assert("com.apple.keylayout.Danish"@.len() == 26);
    reveal_strlit("com.apple.keylayout.Welsh");
    assert("com.apple.keylayout.Welsh"@.len() == 25);
    reveal_strlit("com.apple.keylayout.Turkmen");
    assert("com.apple.keylayout.Turkmen"@.len() == 27);
    reveal_strlit("com.apple.keylayout.Turkish-QWERTY-PC");
    assert("com.apple.keylayout.Turkish-QWERTY-PC"@.len() == 37);
    reveal_strlit("com.apple.keylayout.Sami-PC");
    assert("com.apple.keylayout.Sami-PC"@.len() == 27);
    reveal_strlit("com.apple.keylayout.LatinAmerican");
    assert("com.apple.keylayout.LatinAmerican"@.len() == 33);
    reveal_strlit("com.apple.keylayout.IrishExtended");
    assert("com.apple.keylayout.IrishExtended"@.len() == 33);
    reveal_strlit("com.apple.keylayout.Icelandic");
    assert("com.apple.keylayout.Icelandic"@.len() == 29);
    reveal_strlit("com.apple.keylayout.German-DIN-2137");
    assert("com.apple.keylayout.German-DIN-2137"@.len() == 35);
    reveal_strlit("com.apple.keylayout.FinnishSami-PC");
    assert("com.apple.keylayout.FinnishSami-PC"@.len() == 34);
    reveal_strlit("com.apple.keylayout.FinnishExtended");
    assert("com.apple.keylayout.FinnishExtended"@.len() == 35);
    reveal_strlit("com.apple.keylayout.Faroese");
    assert("com.apple.keylayout.Faroese"@.len() == 27);
    reveal_strlit("com.apple.keylayout.Croatian-PC");
    assert("com.apple.keylayout.Croatian-PC"@.len() == 31);
    reveal_strlit("com.apple.keylayout.Croatian");
    assert("com.apple.keylayout.Croatian"@.len() == 28);
    reveal_strlit("com.apple.keylayout.Azeri");
    assert("com.apple.keylayout.Azeri"@.len() == 25);
    reveal_strlit("com.apple.keylayout.Albanian");
    assert("com.apple.keylayout.Albanian"@.len() == 28);
    reveal_strlit("com.apple.keylayout.SwissFrench");
    assert("com.apple.keylayout.SwissFrench"@.len() == 31);
    reveal_strlit("com.apple.keylayout.Swedish");
    assert("com.apple.keylayout.Swedish"@.len() == 27);
    reveal_strlit("com.apple.keylayout.Swedish-Pro");
    assert("com.apple.keylayout.Swedish-Pro"@.len() == 31);
    reveal_strlit("com.apple.keylayout.Spanish");
    assert("com.apple.keylayout.Spanish"@.len() == 27);
    reveal_strlit("com.apple.keylayout.Spanish-ISO");
    assert("com.apple.keylayout.Spanish-ISO"@.len() == 31);
    reveal_strlit("com.apple.keylayout.Portuguese");
    assert("com.apple.keylayout.Portuguese"@.len() == 30);
    reveal_strlit("com.apple.keylayout.Italian");
    assert("com.apple.keylayout.Italian"@.len() == 27);
    reveal_strlit("com.apple.keylayout.Italian-Pro");
    assert("com.apple.keylayout.Italian-Pro"@.len() == 31);
    reveal_strlit("com.apple.keylayout.Irish");
    assert("com.apple.keylayout.Irish"@.len() == 25);
    reveal_strlit("com.apple.keylayout.German");
    assert("com.apple.keylayout.German"@.len() == 26);
    assert("com.apple.keylayout.Danish"@[20] != "com.apple.keylayout.German"@[20]);
    reveal_strlit("com.apple.keylayout.French");
    assert("com.apple.keylayout.French"@.len() == 26);
    assert("com.apple.keylayout.Danish"@[20] != "com.apple.keylayout.French"@[20]);
    reveal_strlit("com.apple.keylayout.French-numerical");
    assert("com.apple.keylayout.French-numerical"@.len() == 36);
    reveal_strlit("com.apple.keylayout.French-PC");
    assert("com.apple.keylayout.French-PC"@.len() == 29);
    reveal_strlit("com.apple.keylayout.Finnish");
    assert("com.apple.keylayout.Finnish"@.len() == 27);
}

proof fn lemma_layout_31()
    ensures
        layout_table("com.apple.keylayout.Canadian-CSA"@) == Some(("\\?']/><[{}|~`\""@, "àÉèçé\"'^¨ÇÀÙùÈ"@)),
{
    reveal_strlit("com.apple.keylayout.Canadian-CSA");
    assert("com.apple.keylayout.Canadian-CSA"@.len() == 32);
    reveal_strlit("com.apple.keylayout.Welsh");
    assert("com.apple.keylayout.Welsh"@.len() == 25);
    reveal_strlit("com.apple.keylayout.Turkmen");
    assert("com.apple.keylayout.Turkmen"@.len() == 27);
    reveal_strlit("com.apple.keylayout.Turkish-QWERTY-PC");
    assert("com.apple.keylayout.Turkish-QWERTY-PC"@.len() == 37);
    reveal_strlit("com.apple.keylayout.Sami-PC");
    assert("com.apple.keylayout.Sami-PC"@.len() == 27);
    reveal_strlit("com.apple.keylayout.LatinAmerican");
    assert("com.apple.keylayout.LatinAmerican"@.len() == 33);
    reveal_strlit("com.apple.keylayout.IrishExtended");
    assert("com.apple.keylayout.IrishExtended"@.len() == 33);
    reveal_strlit("com.apple.keylayout.Icelandic");
    assert("com.apple.keylayout.Icelandic"@.len() == 29);
    reveal_strlit("com.apple.keylayout.German-DIN-2137");
    assert("com.apple.keylayout.German-DIN-2137"@.len() == 35);
    reveal_strlit("com.apple.keylayout.FinnishSami-PC");
    assert("com.apple.keylayout.FinnishSami-PC"@.len() == 34);
    reveal_strlit("com.apple.keylayout.FinnishExtended");
    assert("com.apple.keylayout.FinnishExtended"@.len() == 35);
    reveal_strlit("com.apple.keylayout.Faroese");
    assert("com.apple.keylayout.Faroese"@.len() == 27);
    reveal_strlit("com.apple.keylayout.Croatian-PC");
    assert("com.apple.keylayout.Croatian-PC"@.len() == 31);
    reveal_strlit("com.apple.keylayout.Croatian");
    assert("com.apple.keylayout.Croatian"@.len() == 28);
    reveal_strlit("com.apple.keylayout.Azeri");
    assert("com.apple.keylayout.Azeri"@.len() == 25);
    reveal_strlit("com.apple.keylayout.Albanian");
    assert("com.apple.keylayout.Albanian"@.len() == 28);
    reveal_strlit("com.apple.keylayout.SwissFrench");
    assert("com.apple.keylayout.SwissFrench"@.len() == 31);
    reveal_strlit("com.apple.keylayout.Swedish");
    assert("com.apple.keylayout.Swedish"@.len() == 27);
    reveal_strlit("com.apple.keylayout.Swedish-Pro");
    assert("com.apple.keylayout.Swedish-Pro"@.len() == 31);
    reveal_strlit("com.apple.keylayout.Spanish");
    assert("com.apple.keylayout.Spanish"@.len() == 27);
    reveal_strlit("com.apple.keylayout.Spanish-ISO");
    assert("com.apple.keylayout.Spanish-ISO"@.len() == 31);
    reveal_strlit("com.apple.keylayout.Portuguese");
    assert("com.apple.keylayout.Portuguese"@.len() == 30);
    reveal_strlit("com.apple.keylayout.Italian");
    assert("com.apple.keylayout.Italian"@.len() == 27);
    reveal_strlit("com.apple.keylayout.Italian-Pro");
    assert("com.apple.keylayout.Italian-Pro"@.len() == 31);
    reveal_strlit("com.apple.keylayout.Irish");
    assert("com.apple.keylayout.Irish"@.len() == 25);
    reveal_strlit("com.apple.keylayout.German");
    assert("com.apple.keylayout.German"@.len() == 26);
    reveal_strlit("com.apple.keylayout.French");
    assert("com.apple.keylayout.French"@.len() == 26);
    reveal_strlit("com.apple.keylayout.French-numerical");
    assert("com.apple.keylayout.French-numerical"@.len() == 36);
    reveal_strlit("com.apple.keylayout.French-PC");
    assert("com.apple.keylayout.French-PC"@.len() == 29);
    reveal_strlit("com.apple.keylayout.Finnish");
    assert("com.apple.keylayout.Finnish"@.len() == 27);
    reveal_strlit("com.apple.keylayout.Danish");
    assert("com.apple.keylayout.Danish"@.len() == 26);
}

proof fn lemma_layout_32()
    ensures
        layout_table("com.apple.keylayout.British"@) == Some(("#"@, "£"@)),
{
    reveal_strlit("com.apple.keylayout.British");
    assert("com.apple.keylayout.British"@.len() == 27);
    reveal_strlit("com.apple.keylayout.Welsh");
    assert("com.apple.keylayout.Welsh"@.len() == 25);
    reveal_strlit("com.apple.keylayout.Turkmen");
    assert("com.apple.keylayout.Turkmen"@.len() == 27);
    assert("com.apple.keylayout.British"@[20] != "com.apple.keylayout.Turkmen"@[20]);
    reveal_strlit("com.apple.keylayout.Turkish-QWERTY-PC");
    assert("com.apple.keylayout.Turkish-QWERTY-PC"@.len() == 37);
    reveal_strlit("com.apple.keylayout.Sami-PC");
    assert("com.apple.keylayout.Sami-PC"@.len() == 27);
    assert("com.apple.keylayout.British"@[20] != "com.apple.keylayout.Sami-PC"@[20]);
    reveal_strlit("com.apple.keylayout.LatinAmerican");
    assert("com.apple.keylayout.LatinAmerican"@.len() == 33);
    reveal_strlit("com.apple.keylayout.IrishExtended");
    assert("com.apple.keylayout.IrishExtended"@.len() == 33);
    reveal_strlit("com.apple.keylayout.Icelandic");
    assert("com.apple.keylayout.Icelandic"@.len() == 29);
    reveal_strlit("com.apple.keylayout.German-DIN-2137");
    assert("com.apple.keylayout.German-DIN-2137"@.len() == 35);
    reveal_strlit("com.apple.keylayout.FinnishSami-PC");
    assert("com.apple.keylayout.FinnishSami-PC"@.len() == 34);
    reveal_strlit("com.apple.keylayout.FinnishExtended");
    assert("com.apple.keylayout.FinnishExtended"@.len() == 35);
    reveal_strlit("com.apple.keylayout.Faroese");
    assert("com.apple.keylayout.Faroese"@.len() == 27);
    assert("com.apple.keylayout.British"@[20] != "com.apple.keylayout.Faroese"@[20]);
    reveal_strlit("com.apple.keylayout.Croatian-PC");
    assert("com.apple.keylayout.Croatian-PC"@.len() == 31);
    reveal_strlit("com.apple.keylayout.Croatian");
    assert("com.apple.keylayout.Croatian"@.len() == 28);
    reveal_strlit("com.apple.keylayout.Azeri");
    assert("com.apple.keylayout.Azeri"@.len() == 25);
    reveal_strlit("com.apple.keylayout.Albanian");
    assert("com.apple.keylayout.Albanian"@.len() == 28);
    reveal_strlit("com.apple.keylayout.SwissFrench");
    assert("com.apple.keylayout.SwissFrench"@.len() == 31);
    reveal_strlit("com.apple.keylayout.Swedish");
    assert("com.apple.keylayout.Swedish"@.len() == 27);
    assert("com.apple.keylayout.British"@[20] != "com.apple.keylayout.Swedish"@[20]);
    reveal_strlit("com.apple.keylayout.Swedish-Pro");
    assert("com.apple.keylayout.Swedish-Pro"@.len() == 31);
    reveal_strlit("com.apple.keylayout.Spanish");
    assert("com.apple.keylayout.Spanish"@.len() == 27);
    assert("com.apple.keylayout.British"@[20] != "com.apple.keylayout.Spanish"@[20]);
    reveal_strlit("com.apple.keylayout.Spanish-ISO");
    assert("com.apple.keylayout.Spanish-ISO"@.len() == 31);
    reveal_strlit("com.apple.keylayout.Portuguese");
    assert("com.apple.keylayout.Portuguese"@.len() == 30);
    reveal_strlit("com.apple.keylayout.Italian");
    assert("com.apple.keylayout.Italian"@.len() == 27);
    assert("com.apple.keylayout.British"@[20] != "com.apple.keylayout.Italian"@[20]);
    reveal_strlit("com.apple.keylayout.Italian-Pro");
    assert("com.apple.keylayout.Italian-Pro"@.len() == 31);
    reveal_strlit("com.apple.keylayout.Irish");
    assert("com.apple.keylayout.Irish"@.len() == 25);
    reveal_strlit("com.apple.keylayout.German");
    assert("com.apple.keylayout.German"@.len() == 26);
    reveal_strlit("com.apple.keylayout.French");
    assert("com.apple.keylayout.French"@.len() == 26);
    reveal_strlit("com.apple.keylayout.French-numerical");
    assert("com.apple.keylayout.French-numerical"@.len() == 36);
    reveal_strlit("com.apple.keylayout.French-PC");
    assert("com.apple.keylayout.French-PC"@.len() == 29);
    reveal_strlit("com.apple.keylayout.Finnish");
    assert("com.apple.keylayout.Finnish"@.len() == 27);
    assert("com.apple.keylayout.British"@[20] != "com.apple.keylayout.Finnish"@[20]);
    reveal_strlit("com.apple.keylayout.Danish");
    assert("com.apple.keylayout.Danish"@.len() == 26);
    reveal_strlit("com.apple.keylayout.Canadian-CSA");
    assert("com.apple.keylayout.Canadian-CSA"@.len() == 32);
}

proof fn lemma_layout_33()
    ensures
        layout_table("com.apple.keylayout.Brazilian-ABNT2"@) == Some(("\"|~?`'/^\\"@, "`^\"Ç'´ç¨~"@)),
{
    reveal_strlit("com.apple.keylayout.Brazilian-ABNT2");
    assert("com.apple.keylayout.Brazilian-ABNT2"@.len() == 35);
    reveal_strlit("com.apple.keylayout.Welsh");
    assert("com.apple.keylayout.Welsh"@.len() == 25);
    reveal_strlit("com.apple.keylayout.Turkmen");
    assert("com.apple.keylayout.Turkmen"@.len() == 27);
    reveal_strlit("com.apple.keylayout.Turkish-QWERTY-PC");
    assert("com.apple.keylayout.Turkish-QWERTY-PC"@.len() == 37);
    reveal_strlit("com.apple.keylayout.Sami-PC");
    assert("com.apple.keylayout.Sami-PC"@.len() == 27);
    reveal_strlit("com.apple.keylayout.LatinAmerican");
    assert("com.apple.keylayout.LatinAmerican"@.len() == 33);
    reveal_strlit("com.apple.keylayout.IrishExtended");
    assert("com.apple.keylayout.IrishExtended"@.len() == 33);
    reveal_strlit("com.apple.keylayout.Icelandic");
    assert("com.apple.keylayout.Icelandic"@.len() == 29);
    reveal_strlit("com.apple.keylayout.German-DIN-2137");
    assert("com.apple.keylayout.German-DIN-2137"@.len() == 35);
    assert("com.apple.keylayout.Brazilian-ABNT2"@[20] != "com.apple.keylayout.German-DIN-2137"@[20]);
    reveal_strlit("com.apple.keylayout.FinnishSami-PC");
    assert("com.apple.keylayout.FinnishSami-PC"@.len() == 34);
    reveal_strlit("com.apple.keylayout.FinnishExtended");
    assert("com.apple.keylayout.FinnishExtended"@.len() == 35);
    assert("com.apple.keylayout.Brazilian-ABNT2"@[20] != "com.apple.keylayout.FinnishExtended"@[20]);
    reveal_strlit("com.apple.keylayout.Faroese");
    assert("com.apple.keylayout.Faroese"@.len() == 27);
    reveal_strlit("com.apple.keylayout.Croatian-PC");
    assert("com.apple.keylayout.Croatian-PC"@.len() == 31);
    reveal_strlit("com.apple.keylayout.Croatian");
    assert("com.apple.keylayout.Croatian"@.len() == 28);
    reveal_strlit("com.apple.keylayout.Azeri");
    assert("com.apple.keylayout.Azeri"@.len() == 25);
    reveal_strlit("com.apple.keylayout.Albanian");
    assert("com.apple.keylayout.Albanian"@.len() == 28);
    reveal_strlit("com.apple.keylayout.SwissFrench");
    assert("com.apple.keylayout.SwissFrench"@.len() == 31);
    reveal_strlit("com.apple.keylayout.Swedish");
    assert("com.apple.keylayout.Swedish"@.len() == 27);
    reveal_strlit("com.apple.keylayout.Swedish-Pro");
    assert("com.apple.keylayout.Swedish-Pro"@.len() == 31);
    reveal_strlit("com.apple.keylayout.Spanish");
    assert("com.apple.keylayout.Spanish"@.len() == 27);
    reveal_strlit("com.apple.keylayout.Spanish-ISO");
    assert("com.apple.keylayout.Spanish-ISO"@.len() == 31);
    reveal_strlit("com.apple.keylayout.Portuguese");
    assert("com.apple.keylayout.Portuguese"@.len() == 30);
    reveal_strlit("com.apple.keylayout.Italian");
    assert("com.apple.keylayout.Italian"@.len() == 27);
    reveal_strlit("com.apple.keylayout.Italian-Pro");
    assert("com.apple.keylayout.Italian-Pro"@.len() == 31);
    reveal_strlit("com.apple.keylayout.Irish");
    assert("com.apple.keylayout.Irish"@.len() == 25);
    reveal_strlit("com.apple.keylayout.German");
    assert("com.apple.keylayout.German"@.len() == 26);
    reveal_strlit("com.apple.keylayout.French");
    assert("com.apple.keylayout.French"@.len() == 26);
    reveal_strlit("com.apple.keylayout.French-numerical");
    assert("com.apple.keylayout.French-numerical"@.len() == 36);
    reveal_strlit("com.apple.keylayout.French-PC");
    assert("com.apple.keylayout.French-PC"@.len() == 29);
    reveal_strlit("com.apple.keylayout.Finnish");
    assert("com.apple.keylayout.Finnish"@.len() == 27);
    reveal_strlit("com.apple.keylayout.Danish");
    assert("com.apple.keylayout.Danish"@.len() == 26);
    reveal_strlit("com.apple.keylayout.Canadian-CSA");
    assert("com.apple.keylayout.Canadian-CSA"@.len() == 32);
    reveal_strlit("com.apple.keylayout.British");
    assert("com.apple.keylayout.British"@.len() == 27);
}

proof fn lemma_layout_34()
    ensures
        layout_table("com.apple.keylayout.Belgian"@) == Some(("`3/*<\\8>7#&96@);024(|'1\":$[~5.%^}]{!"@, "<\":8.`!/è37ç§20)àé'9£ù&%°4^>(;56*$¨1"@)),
{
    reveal_strlit("com.apple.keylayout.Belgian");
    assert("com.apple.keylayout.Belgian"@.len() == 27);
    reveal_strlit("com.apple.keylayout.Welsh");
    assert("com.apple.keylayout.Welsh"@.len() == 25);
    reveal_strlit("com.apple.keylayout.Turkmen");
    assert("com.apple.keylayout.Turkmen"@.len() == 27);
    assert("com.apple.keylayout.Belgian"@[20] != "com.apple.keylayout.Turkmen"@[20]);
    reveal_strlit("com.apple.keylayout.Turkish-QWERTY-PC");
    assert("com.apple.keylayout.Turkish-QWERTY-PC"@.len() == 37);
    reveal_strlit("com.apple.keylayout.Sami-PC");
    assert("com.apple.keylayout.Sami-PC"@.len() == 27);
    assert("com.apple.keylayout.Belgian"@[20] != "com.apple.keylayout.Sami-PC"@[20]);
    reveal_strlit("com.apple.keylayout.LatinAmerican");
    assert("com.apple.keylayout.LatinAmerican"@.len() == 33);
    reveal_strlit("com.apple.keylayout.IrishExtended");
    assert("com.apple.keylayout.IrishExtended"@.len() == 33);
    reveal_strlit("com.apple.keylayout.Icelandic");
    assert("com.apple.keylayout.Icelandic"@.len() == 29);
    reveal_strlit("com.apple.keylayout.German-DIN-2137");
    assert("com.apple.keylayout.German-DIN-2137"@.len() == 35);
    reveal_strlit("com.apple.keylayout.FinnishSami-PC");
    assert("com.apple.keylayout.FinnishSami-PC"@.len() == 34);
    reveal_strlit("com.apple.keylayout.FinnishExtended");
    assert("com.apple.keylayout.FinnishExtended"@.len() == 35);
    reveal_strlit("com.apple.keylayout.Faroese");
    assert("com.apple.keylayout.Faroese"@.len() == 27);
    assert("com.apple.keylayout.Belgian"@[20] != "com.apple.keylayout.Faroese"@[20]);
    reveal_strlit("com.apple.keylayout.Croatian-PC");
    assert("com.apple.keylayout.Croatian-PC"@.len() == 31);
    reveal_strlit("com.apple.keylayout.Croatian");
    assert("com.apple.keylayout.Croatian"@.len() == 28);
    reveal_strlit("com.apple.keylayout.Azeri");
    assert("com.apple.keylayout.Azeri"@.len() == 25);
    reveal_strlit("com.apple.keylayout.Albanian");
    assert("com.apple.keylayout.Albanian"@.len() == 28);
    reveal_strlit("com.apple.keylayout.SwissFrench");
    assert("com.apple.keylayout.SwissFrench"@.len() == 31);
    reveal_strlit("com.apple.keylayout.Swedish");
    assert("com.apple.keylayout.Swedish"@.len() == 27);
    assert("com.apple.keylayout.Belgian"@[20] != "com.apple.keylayout.Swedish"@[20]);
    reveal_strlit("com.apple.keylayout.Swedish-Pro");
    assert("com.apple.keylayout.Swedish-Pro"@.len() == 31);
    reveal_strlit("com.apple.keylayout.Spanish");
    assert("com.apple.keylayout.Spanish"@.len() == 27);
    assert("com.apple.keylayout.Belgian"@[20] != "com.apple.keylayout.Spanish"@[20]);
    reveal_strlit("com.apple.keylayout.Spanish-ISO");
    assert("com.apple.keylayout.Spanish-ISO"@.len() == 31);
    reveal_strlit("com.apple.keylayout.Portuguese");
    assert("com.apple.keylayout.Portuguese"@.len() == 30);
    reveal_strlit("com.apple.keylayout.Italian");
    assert("com.apple.keylayout.Italian"@.len() == 27);
    assert("com.apple.keylayout.Belgian"@[20] != "com.apple.keylayout.Italian"@[20]);
    reveal_strlit("com.apple.keylayout.Italian-Pro");
    assert("com.apple.keylayout.Italian-Pro"@.len() == 31);
    reveal_strlit("com.apple.keylayout.Irish");
    assert("com.apple.keylayout.Irish"@.len() == 25);
    reveal_strlit("com.apple.keylayout.German");
    assert("com.apple.keylayout.German"@.len() == 26);
    reveal_strlit("com.apple.keylayout.French");
    assert("com.apple.keylayout.French"@.len() == 26);
    reveal_strlit("com.apple.keylayout.French-numerical");
    assert("com.apple.keylayout.French-numerical"@.len() == 36);
    reveal_strlit("com.apple.keylayout.French-PC");
    assert("com.apple.keylayout.French-PC"@.len() == 29);
    reveal_strlit("com.apple.keylayout.Finnish");
    assert("com.apple.keylayout.Finnish"@.len() == 27);
    assert("com.apple.keylayout.Belgian"@[20] != "com.apple.keylayout.Finnish"@[20]);
    reveal_strlit("com.apple.keylayout.Danish");
    assert("com.apple.keylayout.Danish"@.len() == 26);
    reveal_strlit("com.apple.keylayout.Canadian-CSA");
    assert("com.apple.keylayout.Canadian-CSA"@.len() == 32);
    reveal_strlit("com.apple.keylayout.British");
    assert("com.apple.keylayout.British"@.len() == 27);
    assert("com.apple.keylayout.Belgian"@[21] != "com.apple.keylayout.British"@[21]);
    reveal_strlit("com.apple.keylayout.Brazilian-ABNT2");
    assert("com.apple.keylayout.Brazilian-ABNT2"@.len() == 35);
}

proof fn lemma_layout_35()
    ensures
        layout_table("com.apple.keylayout.Austrian"@) == Some(("/^*`'{|)>&<[\\;(~\"}@]:=#"@, "ß&(<´Ö'=:/;ö#ü)>`Ä\"äÜ*§"@)),
{
    reveal_strlit("com.apple.keylayout.Austrian");
    assert("com.apple.keylayout.Austrian"@.len() == 28);
    reveal_strlit("com.apple.keylayout.Welsh");
    assert("com.apple.keylayout.Welsh"@.len() == 25);
    reveal_strlit("com.apple.keylayout.Turkmen");
    assert("com.apple.keylayout.Turkmen"@.len() == 27);
    reveal_strlit("com.apple.keylayout.Turkish-QWERTY-PC");
    assert("com.apple.keylayout.Turkish-QWERTY-PC"@.len() == 37);
    reveal_strlit("com.apple.keylayout.Sami-PC");
    assert("com.apple.keylayout.Sami-PC"@.len() == 27);
    reveal_strlit("com.apple.keylayout.LatinAmerican");
    assert("com.apple.keylayout.LatinAmerican"@.len() == 33);
    reveal_strlit("com.apple.keylayout.IrishExtended");
    assert("com.apple.keylayout.IrishExtended"@.len() == 33);
    reveal_strlit("com.apple.keylayout.Icelandic");
    assert("com.apple.keylayout.Icelandic"@.len() == 29);
    reveal_strlit("com.apple.keylayout.German-DIN-2137");
    assert("com.apple.keylayout.German-DIN-2137"@.len() == 35);
    reveal_strlit("com.apple.keylayout.FinnishSami-PC");
    assert("com.apple.keylayout.FinnishSami-PC"@.len() == 34);
    reveal_strlit("com.apple.keylayout.FinnishExtended");
    assert("com.apple.keylayout.FinnishExtended"@.len() == 35);
    reveal_strlit("com.apple.keylayout.Faroese");
    assert("com.apple.keylayout.Faroese"@.len() == 27);
    reveal_strlit("com.apple.keylayout.Croatian-PC");
    assert("com.apple.keylayout.Croatian-PC"@.len() == 31);
    reveal_strlit("com.apple.keylayout.Croatian");
    assert("com.apple.keylayout.Croatian"@.len() == 28);
    assert("com.apple.keylayout.Austrian"@[20] != "com.apple.keylayout.Croatian"@[20]);
    reveal_strlit("com.apple.keylayout.Azeri");
    assert("com.apple.keylayout.Azeri"@.len() == 25);
    reveal_strlit("com.apple.keylayout.Albanian");
    assert("com.apple.keylayout.Albanian"@.len() == 28);
    assert("com.apple.keylayout.Austrian"@[21] != "com.apple.keylayout.Albanian"@[21]);
    reveal_strlit("com.apple.keylayout.SwissFrench");
    assert("com.apple.keylayout.SwissFrench"@.len() == 31);
    reveal_strlit("com.apple.keylayout.Swedish");
    assert("com.apple.keylayout.Swedish"@.len() == 27);
    reveal_strlit("com.apple.keylayout.Swedish-Pro");
    assert("com.apple.keylayout.Swedish-Pro"@.len() == 31);
    reveal_strlit("com.apple.keylayout.Spanish");
    assert("com.apple.keylayout.Spanish"@.len() == 27);
    reveal_strlit("com.apple.keylayout.Spanish-ISO");
    assert("com.apple.keylayout.Spanish-ISO"@.len() == 31);
    reveal_strlit("com.apple.keylayout.Portuguese");
    assert("com.apple.keylayout.Portuguese"@.len() == 30);
    reveal_strlit("com.apple.keylayout.Italian");
    assert("com.apple.keylayout.Italian"@.len() == 27);
    reveal_strlit("com.apple.keylayout.Italian-Pro");
    assert("com.apple.keylayout.Italian-Pro"@.len() == 31);
    reveal_strlit("com.apple.keylayout.Irish");
    assert("com.apple.keylayout.Irish"@.len() == 25);
    reveal_strlit("com.apple.keylayout.German");
    assert("com.apple.keylayout.German"@.len() == 26);
    reveal_strlit("com.apple.keylayout.French");
    assert("com.apple.keylayout.French"@.len() == 26);
    reveal_strlit("com.apple.keylayout.French-numerical");
    assert("com.apple.keylayout.French-numerical"@.len() == 36);
    reveal_strlit("com.apple.keylayout.French-PC");
    assert("com.apple.keylayout.French-PC"@.len() == 29);
    reveal_strlit("com.apple.keylayout.Finnish");
    assert("com.apple.keylayout.Finnish"@.len() == 27);
    reveal_strlit("com.apple.keylayout.Danish");
    assert("com.apple.keylayout.Danish"@.len() == 26);
    reveal_strlit("com.apple.keylayout.Canadian-CSA");
    assert("com.apple.keylayout.Canadian-CSA"@.len() == 32);
    reveal_strlit("com.apple.keylayout.British");
    assert("com.apple.keylayout.British"@.len() == 27);
    reveal_strlit("com.apple.keylayout.Brazilian-ABNT2");
    assert("com.apple.keylayout.Brazilian-ABNT2"@.len() == 35);
    reveal_strlit("com.apple.keylayout.Belgian");
    assert("com.apple.keylayout.Belgian"@.len() == 27);
}

proof fn lemma_layout_36()
    ensures
        layout_table("com.apple.keylayout.Slovak-QWERTY"@) == Some(("):9;63'\"]^/+@~>`?<!#5&${2}%*18(704["@, "0\"íôžš§!ä6'%2Ň:ňˇ?13ť74ÚľÄ58+á9ýéčú"@)),
{
    reveal_strlit("com.apple.keylayout.Slovak-QWERTY");
    assert("com.apple.keylayout.Slovak-QWERTY"@.len() == 33);
    reveal_strlit("com.apple.keylayout.Welsh");
    assert("com.apple.keylayout.Welsh"@.len() == 25);
    reveal_strlit("com.apple.keylayout.Turkmen");
    assert("com.apple.keylayout.Turkmen"@.len() == 27);
    reveal_strlit("com.apple.keylayout.Turkish-QWERTY-PC");
    assert("com.apple.keylayout.Turkish-QWERTY-PC"@.len() == 37);
    reveal_strlit("com.apple.keylayout.Sami-PC");
    assert("com.apple.keylayout.Sami-PC"@.len() == 27);
    reveal_strlit("com.apple.keylayout.LatinAmerican");
    assert("com.apple.keylayout.LatinAmerican"@.len() == 33);
    assert("com.apple.keylayout.Slovak-QWERTY"@[20] != "com.apple.keylayout.LatinAmerican"@[20]);
    reveal_strlit("com.apple.keylayout.IrishExtended");
    assert("com.apple.keylayout.IrishExtended"@.len() == 33);
    assert("com.apple.keylayout.Slovak-QWERTY"@[20] != "com.apple.keylayout.IrishExtended"@[20]);
    reveal_strlit("com.apple.keylayout.Icelandic");
    assert("com.apple.keylayout.Icelandic"@.len() == 29);
    reveal_strlit("com.apple.keylayout.German-DIN-2137");
    assert("com.apple.keylayout.German-DIN-2137"@.len() == 35);
    reveal_strlit("com.apple.keylayout.FinnishSami-PC");
    assert("com.apple.keylayout.FinnishSami-PC"@.len() == 34);
    reveal_strlit("com.apple.keylayout.FinnishExtended");
    assert("com.apple.keylayout.FinnishExtended"@.len() == 35);
    reveal_strlit("com.apple.keylayout.Faroese");
    assert("com.apple.keylayout.Faroese"@.len() == 27);
    reveal_strlit("com.apple.keylayout.Croatian-PC");
    assert("com.apple.keylayout.Croatian-PC"@.len() == 31);
    reveal_strlit("com.apple.keylayout.Croatian");
    assert("com.apple.keylayout.Croatian"@.len() == 28);
    reveal_strlit("com.apple.keylayout.Azeri");
    assert("com.apple.keylayout.Azeri"@.len() == 25);
    reveal_strlit("com.apple.keylayout.Albanian");
    assert("com.apple.keylayout.Albanian"@.len() == 28);
    reveal_strlit("com.apple.keylayout.SwissFrench");
    assert("com.apple.keylayout.SwissFrench"@.len() == 31);
    reveal_strlit("com.apple.keylayout.Swedish");
    assert("com.apple.keylayout.Swedish"@.len() == 27);
    reveal_strlit("com.apple.keylayout.Swedish-Pro");
    assert("com.apple.keylayout.Swedish-Pro"@.len() == 31);
    reveal_strlit("com.apple.keylayout.Spanish");
    assert("com.apple.keylayout.Spanish"@.len() == 27);
    reveal_strlit("com.apple.keylayout.Spanish-ISO");
    assert("com.apple.keylayout.Spanish-ISO"@.len() == 31);
    reveal_strlit("com.apple.keylayout.Portuguese");
    assert("com.apple.keylayout.Portuguese"@.len() == 30);
    reveal_strlit("com.apple.keylayout.Italian");
    assert("com.apple.keylayout.Italian"@.len() == 27);
    reveal_strlit("com.apple.keylayout.Italian-Pro");
    assert("com.apple.keylayout.Italian-Pro"@.len() == 31);
    reveal_strlit("com.apple.keylayout.Irish");
    assert("com.apple.keylayout.Irish"@.len() == 25);
    reveal_strlit("com.apple.keylayout.German");
    assert("com.apple.keylayout.German"@.len() == 26);
    reveal_strlit("com.apple.keylayout.French");
    assert("com.apple.keylayout.French"@.len() == 26);
    reveal_strlit("com.apple.keylayout.French-numerical");
    assert("com.apple.keylayout.French-numerical"@.len() == 36);
    reveal_strlit("com.apple.keylayout.French-PC");
    assert("com.apple.keylayout.French-PC"@.len() == 29);
    reveal_strlit("com.apple.keylayout.Finnish");
    assert("com.apple.keylayout.Finnish"@.len() == 27);
    reveal_strlit("com.apple.keylayout.Danish");
    assert("com.apple.keylayout.Danish"@.len() == 26);
    reveal_strlit("com.apple.keylayout.Canadian-CSA");
    assert("com.apple.keylayout.Canadian-CSA"@.len() == 32);
    reveal_strlit("com.apple.keylayout.British");
    assert("com.apple.keylayout.British"@.len() == 27);
    reveal_strlit("com.apple.keylayout.Brazilian-ABNT2");
    assert("com.apple.keylayout.Brazilian-ABNT2"@.len() == 35);
    reveal_strlit("com.apple.keylayout.Belgian");
    assert("com.apple.keylayout.Belgian"@.len() == 27);
    reveal_strlit("com.apple.keylayout.Austrian");
    assert("com.apple.keylayout.Austrian"@.len() == 28);
}

proof fn lemma_layout_37()
    ensures
        layout_table("com.apple.keylayout.Slovak"@) == Some(("!$`10&:#4^*~{%5')}6/\"[8]97?;<@23>(+"@, "14ň+é7\"3č68ŇÚ5ť§0Äž'!úáäíýˇô?2ľš:9%"@)),
{
    reveal_strlit("com.apple.keylayout.Slovak");
    assert("com.apple.keylayout.Slovak"@.len() == 26);
    reveal_strlit("com.apple.keylayout.Welsh");
    assert("com.apple.keylayout.Welsh"@.len() == 25);
    reveal_strlit("com.apple.keylayout.Turkmen");
    assert("com.apple.keylayout.Turkmen"@.len() == 27);
    reveal_strlit("com.apple.keylayout.Turkish-QWERTY-PC");
    assert("com.apple.keylayout.Turkish-QWERTY-PC"@.len() == 37);
    reveal_strlit("com.apple.keylayout.Sami-PC");
    assert("com.apple.keylayout.Sami-PC"@.len() == 27);
    reveal_strlit("com.apple.keylayout.LatinAmerican");
    assert("com.apple.keylayout.LatinAmerican"@.len() == 33);
    reveal_strlit("com.apple.keylayout.IrishExtended");
    assert("com.apple.keylayout.IrishExtended"@.len() == 33);
    reveal_strlit("com.apple.keylayout.Icelandic");
    assert("com.apple.keylayout.Icelandic"@.len() == 29);
    reveal_strlit("com.apple.keylayout.German-DIN-2137");
    assert("com.apple.keylayout.German-DIN-2137"@.len() == 35);
    reveal_strlit("com.apple.keylayout.FinnishSami-PC");
    assert("com.apple.keylayout.FinnishSami-PC"@.len() == 34);
    reveal_strlit("com.apple.keylayout.FinnishExtended");
    assert("com.apple.keylayout.FinnishExtended"@.len() == 35);
    reveal_strlit("com.apple.keylayout.Faroese");
    assert("com.apple.keylayout.Faroese"@.len() == 27);
    reveal_strlit("com.apple.keylayout.Croatian-PC");
    assert("com.apple.keylayout.Croatian-PC"@.len() == 31);
    reveal_strlit("com.apple.keylayout.Croatian");
    assert("com.apple.keylayout.Croatian"@.len() == 28);
    reveal_strlit("com.apple.keylayout.Azeri");
    assert("com.apple.keylayout.Azeri"@.len() == 25);
    reveal_strlit("com.apple.keylayout.Albanian");
    assert("com.apple.keylayout.Albanian"@.len() == 28);
    reveal_strlit("com.apple.keylayout.SwissFrench");
    assert("com.apple.keylayout.SwissFrench"@.len() == 31);
    reveal_strlit("com.apple.keylayout.Swedish");
    assert("com.apple.keylayout.Swedish"@.len() == 27);
    reveal_strlit("com.apple.keylayout.Swedish-Pro");
    assert("com.apple.keylayout.Swedish-Pro"@.len() == 31);
    reveal_strlit("com.apple.keylayout.Spanish");
    assert("com.apple.keylayout.Spanish"@.len() == 27);
    reveal_strlit("com.apple.keylayout.Spanish-ISO");
    assert("com.apple.keylayout.Spanish-ISO"@.len() == 31);
    reveal_strlit("com.apple.keylayout.Portuguese");
    assert("com.apple.keylayout.Portuguese"@.len() == 30);
    reveal_strlit("com.apple.keylayout.Italian");
    assert("com.apple.keylayout.Italian"@.len() == 27);
    reveal_strlit("com.apple.keylayout.Italian-Pro");
    assert("com.apple.keylayout.Italian-Pro"@.len() == 31);
    reveal_strlit("com.apple.keylayout.Irish");
    assert("com.apple.keylayout.Irish"@.len() == 25);
    reveal_strlit("com.apple.keylayout.German");
    assert("com.apple.keylayout.German"@.len() == 26);
    assert("com.apple.keylayout.Slovak"@[20] != "com.apple.keylayout.German"@[20]);
    reveal_strlit("com.apple.keylayout.French");
    assert("com.apple.keylayout.French"@.len() == 26);
    assert("com.apple.keylayout.Slovak"@[20] != "com.apple.keylayout.French"@[20]);
    reveal_strlit("com.apple.keylayout.French-numerical");
    assert("com.apple.keylayout.French-numerical"@.len() == 36);
    reveal_strlit("com.apple.keylayout.French-PC");
    assert("com.apple.keylayout.French-PC"@.len() == 29);
    reveal_strlit("com.apple.keylayout.Finnish");
    assert("com.apple.keylayout.Finnish"@.len() == 27);
    reveal_strlit("com.apple.keylayout.Danish");
    assert("com.apple.keylayout.Danish"@.len() == 26);
    assert("com.apple.keylayout.Slovak"@[20] != "com.apple.keylayout.Danish"@[20]);
    reveal_strlit("com.apple.keylayout.Canadian-CSA");
    assert("com.apple.keylayout.Canadian-CSA"@.len() == 32);
    reveal_strlit("com.apple.keylayout.British");
    assert("com.apple.keylayout.British"@.len() == 27);
    reveal_strlit("com.apple.keylayout.Brazilian-ABNT2");
    assert("com.apple.keylayout.Brazilian-ABNT2"@.len() == 35);
    reveal_strlit("com.apple.keylayout.Belgian");
    assert("com.apple.keylayout.Belgian"@.len() == 27);
    reveal_strlit("com.apple.keylayout.Austrian");
    assert("com.apple.keylayout.Austrian"@.len() == 28);
    reveal_strlit("com.apple.keylayout.Slovak-QWERTY");
    assert("com.apple.keylayout.Slovak-QWERTY"@.len() == 33);
}

proof fn lemma_layout_38()
    ensures
        layout_table("com.apple.keylayout.Polish"@) == Some(("&)|?,%:;^}]_{!+#(*`/[~<\"$.>'@=\\"@, ":\"$Ż.+Łł=)(ćź§]!/_<żó>śę?,ńą%[;"@)),
{
    reveal_strlit("com.apple.keylayout.Polish");
    assert("com.apple.keylayout.Polish"@.len() == 26);
    reveal_strlit("com.apple.keylayout.Welsh");
    assert("com.apple.keylayout.Welsh"@.len() == 25);
    reveal_strlit("com.apple.keylayout.Turkmen");
    assert("com.apple.keylayout.Turkmen"@.len() == 27);
    reveal_strlit("com.apple.keylayout.Turkish-QWERTY-PC");
    assert("com.apple.keylayout.Turkish-QWERTY-PC"@.len() == 37);
    reveal_strlit("com.apple.keylayout.Sami-PC");
    assert("com.apple.keylayout.Sami-PC"@.len() == 27);
    reveal_strlit("com.apple.keylayout.LatinAmerican");
    assert("com.apple.keylayout.LatinAmerican"@.len() == 33);
    reveal_strlit("com.apple.keylayout.IrishExtended");
    assert("com.apple.keylayout.IrishExtended"@.len() == 33);
    reveal_strlit("com.apple.keylayout.Icelandic");
    assert("com.apple.keylayout.Icelandic"@.len() == 29);
    reveal_strlit("com.apple.keylayout.German-DIN-2137");
    assert("com.apple.keylayout.German-DIN-2137"@.len() == 35);
    reveal_strlit("com.apple.keylayout.FinnishSami-PC");
    assert("com.apple.keylayout.FinnishSami-PC"@.len() == 34);
    reveal_strlit("com.apple.keylayout.FinnishExtended");
    assert("com.apple.keylayout.FinnishExtended"@.len() == 35);
    reveal_strlit("com.apple.keylayout.Faroese");
    assert("com.apple.keylayout.Faroese"@.len() == 27);
    reveal_strlit("com.apple.keylayout.Croatian-PC");
    assert("com.apple.keylayout.Croatian-PC"@.len() == 31);
    reveal_strlit("com.apple.keylayout.Croatian");
    assert("com.apple.keylayout.Croatian"@.len() == 28);
    reveal_strlit("com.apple.keylayout.Azeri");
    assert("com.apple.keylayout.Azeri"@.len() == 25);
    reveal_strlit("com.apple.keylayout.Albanian");
    assert("com.apple.keylayout.Albanian"@.len() == 28);
    reveal_strlit("com.apple.keylayout.SwissFrench");
    assert("com.apple.keylayout.SwissFrench"@.len() == 31);
    reveal_strlit("com.apple.keylayout.Swedish");
    assert("com.apple.keylayout.Swedish"@.len() == 27);
    reveal_strlit("com.apple.keylayout.Swedish-Pro");
    assert("com.apple.keylayout.Swedish-Pro"@.len() == 31);
    reveal_strlit("com.apple.keylayout.Spanish");
    assert("com.apple.keylayout.Spanish"@.len() == 27);
    reveal_strlit("com.apple.keylayout.Spanish-ISO");
    assert("com.apple.keylayout.Spanish-ISO"@.len() == 31);
    reveal_strlit("com.apple.keylayout.Portuguese");
    assert("com.apple.keylayout.Portuguese"@.len() == 30);
    reveal_strlit("com.apple.keylayout.Italian");
    assert("com.apple.keylayout.Italian"@.len() == 27);
    reveal_strlit("com.apple.keylayout.Italian-Pro");
    assert("com.apple.keylayout.Italian-Pro"@.len() == 31);
    reveal_strlit("com.apple.keylayout.Irish");
    assert("com.apple.keylayout.Irish"@.len() == 25);
    reveal_strlit("com.apple.keylayout.German");
    assert("com.apple.keylayout.German"@.len() == 26);
    assert("com.apple.keylayout.Polish"@[20] != "com.apple.keylayout.German"@[20]);
    reveal_strlit("com.apple.keylayout.French");
    assert("com.apple.keylayout.French"@.len() == 26);
    assert("com.apple.keylayout.Polish"@[20] != "com.apple.keylayout.French"@[20]);
    reveal_strlit("com.apple.keylayout.French-numerical");
    assert("com.apple.keylayout.French-numerical"@.len() == 36);
    reveal_strlit("com.apple.keylayout.French-PC");
    assert("com.apple.keylayout.French-PC"@.len() == 29);
    reveal_strlit("com.apple.keylayout.Finnish");
    assert("com.apple.keylayout.Finnish"@.len() == 27);
    reveal_strlit("com.apple.keylayout.Danish");
    assert("com.apple.keylayout.Danish"@.len() == 26);
    assert("com.apple.keylayout.Polish"@[20] != "com.apple.keylayout.Danish"@[20]);
    reveal_strlit("com.apple.keylayout.Canadian-CSA");
    assert("com.apple.keylayout.Canadian-CSA"@.len() == 32);
    reveal_strlit("com.apple.keylayout.British");
    assert("com.apple.keylayout.British"@.len() == 27);
    reveal_strlit("com.apple.keylayout.Brazilian-ABNT2");
    assert("com.apple.keylayout.Brazilian-ABNT2"@.len() == 35);
    reveal_strlit("com.apple.keylayout.Belgian");
    assert("com.apple.keylayout.Belgian"@.len() == 27);
    reveal_strlit("com.apple.keylayout.Austrian");
    assert("com.apple.keylayout.Austrian"@.len() == 28);
    reveal_strlit("com.apple.keylayout.Slovak-QWERTY");
    assert("com.apple.keylayout.Slovak-QWERTY"@.len() == 33);
    reveal_strlit("com.apple.keylayout.Slovak");
    assert("com.apple.keylayout.Slovak"@.len() == 26);
    assert("com.apple.keylayout.Polish"@[20] != "com.apple.keylayout.Slovak"@[20]);
}

proof fn lemma_layout_39()
    ensures
        layout_table("com.apple.keylayout.Lithuanian"@) == Some(("+#&=!%1*@73^584$26"@, "ŽĘŲžĄĮąŪČųęŠįūėĖčš"@)),
{
    reveal_strlit("com.apple.keylayout.Lithuanian");
    assert("com.apple.keylayout.Lithuanian"@.len() == 30);
    reveal_strlit("com.apple.keylayout.Welsh");
    assert("com.apple.keylayout.Welsh"@.len() == 25);
    reveal_strlit("com.apple.keylayout.Turkmen");
    assert("com.apple.keylayout.Turkmen"@.len() == 27);
    reveal_strlit("com.apple.keylayout.Turkish-QWERTY-PC");
    assert("com.apple.keylayout.Turkish-QWERTY-PC"@.len() == 37);
    reveal_strlit("com.apple.keylayout.Sami-PC");
    assert("com.apple.keylayout.Sami-PC"@.len() == 27);
    reveal_strlit("com.apple.keylayout.LatinAmerican");
    assert("com.apple.keylayout.LatinAmerican"@.len() == 33);
    reveal_strlit("com.apple.keylayout.IrishExtended");
    assert("com.apple.keylayout.IrishExtended"@.len() == 33);
    reveal_strlit("com.apple.keylayout.Icelandic");
    assert("com.apple.keylayout.Icelandic"@.len() == 29);
    reveal_strlit("com.apple.keylayout.German-DIN-2137");
    assert("com.apple.keylayout.German-DIN-2137"@.len() == 35);
    reveal_strlit("com.apple.keylayout.FinnishSami-PC");
    assert("com.apple.keylayout.FinnishSami-PC"@.len() == 34);
    reveal_strlit("com.apple.keylayout.FinnishExtended");
    assert("com.apple.keylayout.FinnishExtended"@.len() == 35);
    reveal_strlit("com.apple.keylayout.Faroese");
    assert("com.apple.keylayout.Faroese"@.len() == 27);
    reveal_strlit("com.apple.keylayout.Croatian-PC");
    assert("com.apple.keylayout.Croatian-PC"@.len() == 31);
    reveal_strlit("com.apple.keylayout.Croatian");
    assert("com.apple.keylayout.Croatian"@.len() == 28);
    reveal_strlit("com.apple.keylayout.Azeri");
    assert("com.apple.keylayout.Azeri"@.len() == 25);
    reveal_strlit("com.apple.keylayout.Albanian");
    assert("com.apple.keylayout.Albanian"@.len() == 28);
    reveal_strlit("com.apple.keylayout.SwissFrench");
    assert("com.apple.keylayout.SwissFrench"@.len() == 31);
    reveal_strlit("com.apple.keylayout.Swedish");
    assert("com.apple.keylayout.Swedish"@.len() == 27);
    reveal_strlit("com.apple.keylayout.Swedish-Pro");
    assert("com.apple.keylayout.Swedish-Pro"@.len() == 31);
    reveal_strlit("com.apple.keylayout.Spanish");
    assert("com.apple.keylayout.Spanish"@.len() == 27);
    reveal_strlit("com.apple.keylayout.Spanish-ISO");
    assert("com.apple.keylayout.Spanish-ISO"@.len() == 31);
    reveal_strlit("com.apple.keylayout.Portuguese");
    assert("com.apple.keylayout.Portuguese"@.len() == 30);
    assert("com.apple.keylayout.Lithuanian"@[20] != "com.apple.keylayout.Portuguese"@[20]);
    reveal_strlit("com.apple.keylayout.Italian");
    assert("com.apple.keylayout.Italian"@.len() == 27);
    reveal_strlit("com.apple.keylayout.Italian-Pro");
    assert("com.apple.keylayout.Italian-Pro"@.len() == 31);
    reveal_strlit("com.apple.keylayout.Irish");
    assert("com.apple.keylayout.Irish"@.len() == 25);
    reveal_strlit("com.apple.keylayout.German");
    assert("com.apple.keylayout.German"@.len() == 26);
    reveal_strlit("com.apple.keylayout.French");
    assert("com.apple.keylayout.French"@.len() == 26);
    reveal_strlit("com.apple.keylayout.French-numerical");
    assert("com.apple.keylayout.French-numerical"@.len() == 36);
    reveal_strlit("com.apple.keylayout.French-PC");
    assert("com.apple.keylayout.French-PC"@.len() == 29);
    reveal_strlit("com.apple.keylayout.Finnish");
    assert("com.apple.keylayout.Finnish"@.len() == 27);
    reveal_strlit("com.apple.keylayout.Danish");
    assert("com.apple.keylayout.Danish"@.len() == 26);
    reveal_strlit("com.apple.keylayout.Canadian-CSA");
    assert("com.apple.keylayout.Canadian-CSA"@.len() == 32);
    reveal_strlit("com.apple.keylayout.British");
    assert("com.apple.keylayout.British"@.len() == 27);
    reveal_strlit("com.apple.keylayout.Brazilian-ABNT2");
    assert("com.apple.keylayout.Brazilian-ABNT2"@.len() == 35);
    reveal_strlit("com.apple.keylayout.Belgian");
    assert("com.apple.keylayout.Belgian"@.len() == 27);
    reveal_strlit("com.apple.keylayout.Austrian");
    assert("com.apple.keylayout.Austrian"@.len() == 28);
    reveal_strlit("com.apple.keylayout.Slovak-QWERTY");
    assert("com.apple.keylayout.Slovak-QWERTY"@.len() == 33);
    reveal_strlit("com.apple.keylayout.Slovak");
    assert("com.apple.keylayout.Slovak"@.len() == 26);
    reveal_strlit("com.apple.keylayout.Polish");
    assert("com.apple.keylayout.Polish"@.len() == 26);
}

proof fn lemma_layout_40()
    ensures
        layout_table("com.apple.keylayout.Hungarian"@) == Some(("}(*@\"{=/|;>'[`<~\\!$&0#:]^)+"@, "Ú)(\"ÁŐóüŰé:áőíÜÍű'!=ö+Éú/ÖÓ"@)),
{
    reveal_strlit("com.apple.keylayout.Hungarian");
    assert("com.apple.keylayout.Hungarian"@.len() == 29);
    reveal_strlit("com.apple.keylayout.Welsh");
    assert("com.apple.keylayout.Welsh"@.len() == 25);
    reveal_strlit("com.apple.keylayout.Turkmen");
    assert("com.apple.keylayout.Turkmen"@.len() == 27);
    reveal_strlit("com.apple.keylayout.Turkish-QWERTY-PC");
    assert("com.apple.keylayout.Turkish-QWERTY-PC"@.len() == 37);
    reveal_strlit("com.apple.keylayout.Sami-PC");
    assert("com.apple.keylayout.Sami-PC"@.len() == 27);
    reveal_strlit("com.apple.keylayout.LatinAmerican");
    assert("com.apple.keylayout.LatinAmerican"@.len() == 33);
    reveal_strlit("com.apple.keylayout.IrishExtended");
    assert("com.apple.keylayout.IrishExtended"@.len() == 33);
    reveal_strlit("com.apple.keylayout.Icelandic");
    assert("com.apple.keylayout.Icelandic"@.len() == 29);
    assert("com.apple.keylayout.Hungarian"@[20] != "com.apple.keylayout.Icelandic"@[20]);
    reveal_strlit("com.apple.keylayout.German-DIN-2137");
    assert("com.apple.keylayout.German-DIN-2137"@.len() == 35);
    reveal_strlit("com.apple.keylayout.FinnishSami-PC");
    assert("com.apple.keylayout.FinnishSami-PC"@.len() == 34);
    reveal_strlit("com.apple.keylayout.FinnishExtended");
    assert("com.apple.keylayout.FinnishExtended"@.len() == 35);
    reveal_strlit("com.apple.keylayout.Faroese");
    assert("com.apple.keylayout.Faroese"@.len() == 27);
    reveal_strlit("com.apple.keylayout.Croatian-PC");
    assert("com.apple.keylayout.Croatian-PC"@.len() == 31);
    reveal_strlit("com.apple.keylayout.Croatian");
    assert("com.apple.keylayout.Croatian"@.len() == 28);
    reveal_strlit("com.apple.keylayout.Azeri");
    assert("com.apple.keylayout.Azeri"@.len() == 25);
    reveal_strlit("com.apple.keylayout.Albanian");
    assert("com.apple.keylayout.Albanian"@.len() == 28);
    reveal_strlit("com.apple.keylayout.SwissFrench");
    assert("com.apple.keylayout.SwissFrench"@.len() == 31);
    reveal_strlit("com.apple.keylayout.Swedish");
    assert("com.apple.keylayout.Swedish"@.len() == 27);
    reveal_strlit("com.apple.keylayout.Swedish-Pro");
    assert("com.apple.keylayout.Swedish-Pro"@.len() == 31);
    reveal_strlit("com.apple.keylayout.Spanish");
    assert("com.apple.keylayout.Spanish"@.len() == 27);
    reveal_strlit("com.apple.keylayout.Spanish-ISO");
    assert("com.apple.keylayout.Spanish-ISO"@.len() == 31);
    reveal_strlit("com.apple.keylayout.Portuguese");
    assert("com.apple.keylayout.Portuguese"@.len() == 30);
    reveal_strlit("com.apple.keylayout.Italian");
    assert("com.apple.keylayout.Italian"@.len() == 27);
    reveal_strlit("com.apple.keylayout.Italian-Pro");
    assert("com.apple.keylayout.Italian-Pro"@.len() == 31);
    reveal_strlit("com.apple.keylayout.Irish");
    assert("com.apple.keylayout.Irish"@.len() == 25);
    reveal_strlit("com.apple.keylayout.German");
    assert("com.apple.keylayout.German"@.len() == 26);
    reveal_strlit("com.apple.keylayout.French");
    assert("com.apple.keylayout.French"@.len() == 26);
    reveal_strlit("com.apple.keylayout.French-numerical");
    assert("com.apple.keylayout.French-numerical"@.len() == 36);
    reveal_strlit("com.apple.keylayout.French-PC");
    assert("com.apple.keylayout.French-PC"@.len() == 29);
    assert("com.apple.keylayout.Hungarian"@[20] != "com.apple.keylayout.French-PC"@[20]);
    reveal_strlit("com.apple.keylayout.Finnish");
    assert("com.apple.keylayout.Finnish"@.len() == 27);
    reveal_strlit("com.apple.keylayout.Danish");
    assert("com.apple.keylayout.Danish"@.len() == 26);
    reveal_strlit("com.apple.keylayout.Canadian-CSA");
    assert("com.apple.keylayout.Canadian-CSA"@.len() == 32);
    reveal_strlit("com.apple.keylayout.British");
    assert("com.apple.keylayout.British"@.len() == 27);
    reveal_strlit("com.apple.keylayout.Brazilian-ABNT2");
    assert("com.apple.keylayout.Brazilian-ABNT2"@.len() == 35);
    reveal_strlit("com.apple.keylayout.Belgian");
    assert("com.apple.keylayout.Belgian"@.len() == 27);
    reveal_strlit("com.apple.keylayout.Austrian");
    assert("com.apple.keylayout.Austrian"@.len() == 28);
    reveal_strlit("com.apple.keylayout.Slovak-QWERTY");
    assert("com.apple.keylayout.Slovak-QWERTY"@.len() == 33);
    reveal_strlit("com.apple.keylayout.Slovak");
    assert("com.apple.keylayout.Slovak"@.len() == 26);
    reveal_strlit("com.apple.keylayout.Polish");
    assert("com.apple.keylayout.Polish"@.len() == 26);
    reveal_strlit("com.apple.keylayout.Lithuanian");
    assert("com.apple.keylayout.Lithuanian"@.len() == 30);
}

proof fn lemma_layout_41()
    ensures
        layout_table("com.apple.keylayout.Hungarian-QWERTY"@) == Some(("=]#>@/&<`0')~(\\!:*;$\"+^{|}["@, "óú+:\"ü=ÜíöáÖÍ)ű'É(é!ÁÓ/ŐŰÚő"@)),
{
    reveal_strlit("com.apple.keylayout.Hungarian-QWERTY");
    assert("com.apple.keylayout.Hungarian-QWERTY"@.len() == 36);
    reveal_strlit("com.apple.keylayout.Welsh");
    assert("com.apple.keylayout.Welsh"@.len() == 25);
    reveal_strlit("com.apple.keylayout.Turkmen");
    assert("com.apple.keylayout.Turkmen"@.len() == 27);
    reveal_strlit("com.apple.keylayout.Turkish-QWERTY-PC");
    assert("com.apple.keylayout.Turkish-QWERTY-PC"@.len() == 37);
    reveal_strlit("com.apple.keylayout.Sami-PC");
    assert("com.apple.keylayout.Sami-PC"@.len() == 27);
    reveal_strlit("com.apple.keylayout.LatinAmerican");
    assert("com.apple.keylayout.LatinAmerican"@.len() == 33);
    reveal_strlit("com.apple.keylayout.IrishExtended");
    assert("com.apple.keylayout.IrishExtended"@.len() == 33);
    reveal_strlit("com.apple.keylayout.Icelandic");
    assert("com.apple.keylayout.Icelandic"@.len() == 29);
    reveal_strlit("com.apple.keylayout.German-DIN-2137");
    assert("com.apple.keylayout.German-DIN-2137"@.len() == 35);
    reveal_strlit("com.apple.keylayout.FinnishSami-PC");
    assert("com.apple.keylayout.FinnishSami-PC"@.len() == 34);
    reveal_strlit("com.apple.keylayout.FinnishExtended");
    assert("com.apple.keylayout.FinnishExtended"@.len() == 35);
    reveal_strlit("com.apple.keylayout.Faroese");
    assert("com.apple.keylayout.Faroese"@.len() == 27);
    reveal_strlit("com.apple.keylayout.Croatian-PC");
    assert("com.apple.keylayout.Croatian-PC"@.len() == 31);
    reveal_strlit("com.apple.keylayout.Croatian");
    assert("com.apple.keylayout.Croatian"@.len() == 28);
    reveal_strlit("com.apple.keylayout.Azeri");
    assert("com.apple.keylayout.Azeri"@.len() == 25);
    reveal_strlit("com.apple.keylayout.Albanian");
    assert("com.apple.keylayout.Albanian"@.len() == 28);
    reveal_strlit("com.apple.keylayout.SwissFrench");
    assert("com.apple.keylayout.SwissFrench"@.len() == 31);
    reveal_strlit("com.apple.keylayout.Swedish");
    assert("com.apple.keylayout.Swedish"@.len() == 27);
    reveal_strlit("com.apple.keylayout.Swedish-Pro");
    assert("com.apple.keylayout.Swedish-Pro"@.len() == 31);
    reveal_strlit("com.apple.keylayout.Spanish");
    assert("com.apple.keylayout.Spanish"@.len() == 27);
    reveal_strlit("com.apple.keylayout.Spanish-ISO");
    assert("com.apple.keylayout.Spanish-ISO"@.len() == 31);
    reveal_strlit("com.apple.keylayout.Portuguese");
    assert("com.apple.keylayout.Portuguese"@.len() == 30);
    reveal_strlit("com.apple.keylayout.Italian");
    assert("com.apple.keylayout.Italian"@.len() == 27);
    reveal_strlit("com.apple.keylayout.Italian-Pro");
    assert("com.apple.keylayout.Italian-Pro"@.len() == 31);
    reveal_strlit("com.apple.keylayout.Irish");
    assert("com.apple.keylayout.Irish"@.len() == 25);
    reveal_strlit("com.apple.keylayout.German");
    assert("com.apple.keylayout.German"@.len() == 26);
    reveal_strlit("com.apple.keylayout.French");
    assert("com.apple.keylayout.French"@.len() == 26);
    reveal_strlit("com.apple.keylayout.French-numerical");
    assert("com.apple.keylayout.French-numerical"@.len() == 36);
    assert("com.apple.keylayout.Hungarian-QWERTY"@[20] != "com.apple.keylayout.French-numerical"@[20]);
    reveal_strlit("com.apple.keylayout.French-PC");
    assert("com.apple.keylayout.French-PC"@.len() == 29);
    reveal_strlit("com.apple.keylayout.Finnish");
    assert("com.apple.keylayout.Finnish"@.len() == 27);
    reveal_strlit("com.apple.keylayout.Danish");
    assert("com.apple.keylayout.Danish"@.len() == 26);
    reveal_strlit("com.apple.keylayout.Canadian-CSA");
    assert("com.apple.keylayout.Canadian-CSA"@.len() == 32);
    reveal_strlit("com.apple.keylayout.British");
    assert("com.apple.keylayout.British"@.len() == 27);
    reveal_strlit("com.apple.keylayout.Brazilian-ABNT2");
    assert("com.apple.keylayout.Brazilian-ABNT2"@.len() == 35);
    reveal_strlit("com.apple.keylayout.Belgian");
    assert("com.apple.keylayout.Belgian"@.len() == 27);
    reveal_strlit("com.apple.keylayout.Austrian");
    assert("com.apple.keylayout.Austrian"@.len() == 28);
    reveal_strlit("com.apple.keylayout.Slovak-QWERTY");
    assert("com.apple.keylayout.Slovak-QWERTY"@.len() == 33);
    reveal_strlit("com.apple.keylayout.Slovak");
    assert("com.apple.keylayout.Slovak"@.len() == 26);
    reveal_strlit("com.apple.keylayout.Polish");
    assert("com.apple.keylayout.Polish"@.len() == 26);
    reveal_strlit("com.apple.keylayout.Lithuanian");
    assert("com.apple.keylayout.Lithuanian"@.len() == 30);
    reveal_strlit("com.apple.keylayout.Hungarian");
    assert("com.apple.keylayout.Hungarian"@.len() == 29);
}

proof fn lemma_layout_42()
    ensures
        layout_table("com.apple.keylayout.Czech-QWERTY"@) == Some(("9>0[2()\"}@]46%5;#8{*7^~+!3?&'<$/1`:"@, "í:éúě90!(2)čž5řů3áÚ8ý6`%1šˇ7§?4'+¨\""@)),
{
    reveal_strlit("com.apple.keylayout.Czech-QWERTY");
    assert("com.apple.keylayout.Czech-QWERTY"@.len() == 32);
    reveal_strlit("com.apple.keylayout.Welsh");
    assert("com.apple.keylayout.Welsh"@.len() == 25);
    reveal_strlit("com.apple.keylayout.Turkmen");
    assert("com.apple.keylayout.Turkmen"@.len() == 27);
    reveal_strlit("com.apple.keylayout.Turkish-QWERTY-PC");
    assert("com.apple.keylayout.Turkish-QWERTY-PC"@.len() == 37);
    reveal_strlit("com.apple.keylayout.Sami-PC");
    assert("com.apple.keylayout.Sami-PC"@.len() == 27);
    reveal_strlit("com.apple.keylayout.LatinAmerican");
    assert("com.apple.keylayout.LatinAmerican"@.len() == 33);
    reveal_strlit("com.apple.keylayout.IrishExtended");
    assert("com.apple.keylayout.IrishExtended"@.len() == 33);
    reveal_strlit("com.apple.keylayout.Icelandic");
    assert("com.apple.keylayout.Icelandic"@.len() == 29);
    reveal_strlit("com.apple.keylayout.German-DIN-2137");
    assert("com.apple.keylayout.German-DIN-2137"@.len() == 35);
    reveal_strlit("com.apple.keylayout.FinnishSami-PC");
    assert("com.apple.keylayout.FinnishSami-PC"@.len() == 34);
    reveal_strlit("com.apple.keylayout.FinnishExtended");
    assert("com.apple.keylayout.FinnishExtended"@.len() == 35);
    reveal_strlit("com.apple.keylayout.Faroese");
    assert("com.apple.keylayout.Faroese"@.len() == 27);
    reveal_strlit("com.apple.keylayout.Croatian-PC");
    assert("com.apple.keylayout.Croatian-PC"@.len() == 31);
    reveal_strlit("com.apple.keylayout.Croatian");
    assert("com.apple.keylayout.Croatian"@.len() == 28);
    reveal_strlit("com.apple.keylayout.Azeri");
    assert("com.apple.keylayout.Azeri"@.len() == 25);
    reveal_strlit("com.apple.keylayout.Albanian");
    assert("com.apple.keylayout.Albanian"@.len() == 28);
    reveal_strlit("com.apple.keylayout.SwissFrench");
    assert("com.apple.keylayout.SwissFrench"@.len() == 31);
    reveal_strlit("com.apple.keylayout.Swedish");
    assert("com.apple.keylayout.Swedish"@.len() == 27);
    reveal_strlit("com.apple.keylayout.Swedish-Pro");
    assert("com.apple.keylayout.Swedish-Pro"@.len() == 31);
    reveal_strlit("com.apple.keylayout.Spanish");
    assert("com.apple.keylayout.Spanish"@.len() == 27);
    reveal_strlit("com.apple.keylayout.Spanish-ISO");
    assert("com.apple.keylayout.Spanish-ISO"@.len() == 31);
    reveal_strlit("com.apple.keylayout.Portuguese");
    assert("com.apple.keylayout.Portuguese"@.len() == 30);
    reveal_strlit("com.apple.keylayout.Italian");
    assert("com.apple.keylayout.Italian"@.len() == 27);
    reveal_strlit("com.apple.keylayout.Italian-Pro");
    assert("com.apple.keylayout.Italian-Pro"@.len() == 31);
    reveal_strlit("com.apple.keylayout.Irish");
    assert("com.apple.keylayout.Irish"@.len() == 25);
    reveal_strlit("com.apple.keylayout.German");
    assert("com.apple.keylayout.German"@.len() == 26);
    reveal_strlit("com.apple.keylayout.French");
    assert("com.apple.keylayout.French"@.len() == 26);
    reveal_strlit("com.apple.keylayout.French-numerical");
    assert("com.apple.keylayout.French-numerical"@.len() == 36);
    reveal_strlit("com.apple.keylayout.French-PC");
    assert("com.apple.keylayout.French-PC"@.len() == 29);
    reveal_strlit("com.apple.keylayout.Finnish");
    assert("com.apple.keylayout.Finnish"@.len() == 27);
    reveal_strlit("com.apple.keylayout.Danish");
    assert("com.apple.keylayout.Danish"@.len() == 26);
    reveal_strlit("com.apple.keylayout.Canadian-CSA");
    assert("com.apple.keylayout.Canadian-CSA"@.len() == 32);
    assert("com.apple.keylayout.Czech-QWERTY"@[21] != "com.apple.keylayout.Canadian-CSA"@[21]);
    reveal_strlit("com.apple.keylayout.British");
    assert("com.apple.keylayout.British"@.len() == 27);
    reveal_strlit("com.apple.keylayout.Brazilian-ABNT2");
    assert("com.apple.keylayout.Brazilian-ABNT2"@.len() == 35);
    reveal_strlit("com.apple.keylayout.Belgian");
    assert("com.apple.keylayout.Belgian"@.len() == 27);
    reveal_strlit("com.apple.keylayout.Austrian");
    assert("com.apple.keylayout.Austrian"@.len() == 28);
    reveal_strlit("com.apple.keylayout.Slovak-QWERTY");
    assert("com.apple.keylayout.Slovak-QWERTY"@.len() == 33);
    reveal_strlit("com.apple.keylayout.Slovak");
    assert("com.apple.keylayout.Slovak"@.len() == 26);
    reveal_strlit("com.apple.keylayout.Polish");
    assert("com.apple.keylayout.Polish"@.len() == 26);
    reveal_strlit("com.apple.keylayout.Lithuanian");
    assert("com.apple.keylayout.Lithuanian"@.len() == 30);
    reveal_strlit("com.apple.keylayout.Hungarian");
    assert("com.apple.keylayout.Hungarian"@.len() == 29);
    reveal_strlit("com.apple.keylayout.Hungarian-QWERTY");
    assert("com.apple.keylayout.Hungarian-QWERTY"@.len() == 36);
}

proof fn lemma_layout_43()
    ensures
        layout_table("com.apple.keylayout.Maltese"@) == Some(("[`}{#]~"@, "ġżĦĠ£ħŻ"@)),
{
    reveal_strlit("com.apple.keylayout.Maltese");
    assert("com.apple.keylayout.Maltese"@.len() == 27);
    reveal_strlit("com.apple.keylayout.Welsh");
    assert("com.apple.keylayout.Welsh"@.len() == 25);
    reveal_strlit("com.apple.keylayout.Turkmen");
    assert("com.apple.keylayout.Turkmen"@.len() == 27);
    assert("com.apple.keylayout.Maltese"@[20] != "com.apple.keylayout.Turkmen"@[20]);
    reveal_strlit("com.apple.keylayout.Turkish-QWERTY-PC");
    assert("com.apple.keylayout.Turkish-QWERTY-PC"@.len() == 37);
    reveal_strlit("com.apple.keylayout.Sami-PC");
    assert("com.apple.keylayout.Sami-PC"@.len() == 27);
    assert("com.apple.keylayout.Maltese"@[20] != "com.apple.keylayout.Sami-PC"@[20]);
    reveal_strlit("com.apple.keylayout.LatinAmerican");
    assert("com.apple.keylayout.LatinAmerican"@.len() == 33);
    reveal_strlit("com.apple.keylayout.IrishExtended");
    assert("com.apple.keylayout.IrishExtended"@.len() == 33);
    reveal_strlit("com.apple.keylayout.Icelandic");
    assert("com.apple.keylayout.Icelandic"@.len() == 29);
    reveal_strlit("com.apple.keylayout.German-DIN-2137");
    assert("com.apple.keylayout.German-DIN-2137"@.len() == 35);
    reveal_strlit("com.apple.keylayout.FinnishSami-PC");
    assert("com.apple.keylayout.FinnishSami-PC"@.len() == 34);
    reveal_strlit("com.apple.keylayout.FinnishExtended");
    assert("com.apple.keylayout.FinnishExtended"@.len() == 35);
    reveal_strlit("com.apple.keylayout.Faroese");
    assert("com.apple.keylayout.Faroese"@.len() == 27);
    assert("com.apple.keylayout.Maltese"@[20] != "com.apple.keylayout.Faroese"@[20]);
    reveal_strlit("com.apple.keylayout.Croatian-PC");
    assert("com.apple.keylayout.Croatian-PC"@.len() == 31);
    reveal_strlit("com.apple.keylayout.Croatian");
    assert("com.apple.keylayout.Croatian"@.len() == 28);
    reveal_strlit("com.apple.keylayout.Azeri");
    assert("com.apple.keylayout.Azeri"@.len() == 25);
    reveal_strlit("com.apple.keylayout.Albanian");
    assert("com.apple.keylayout.Albanian"@.len() == 28);
    reveal_strlit("com.apple.keylayout.SwissFrench");
    assert("com.apple.keylayout.SwissFrench"@.len() == 31);
    reveal_strlit("com.apple.keylayout.Swedish");
    assert("com.apple.keylayout.Swedish"@.len() == 27);
    assert("com.apple.keylayout.Maltese"@[20] != "com.apple.keylayout.Swedish"@[20]);
    reveal_strlit("com.apple.keylayout.Swedish-Pro");
    assert("com.apple.keylayout.Swedish-Pro"@.len() == 31);
    reveal_strlit("com.apple.keylayout.Spanish");
    assert("com.apple.keylayout.Spanish"@.len() == 27);
    assert("com.apple.keylayout.Maltese"@[20] != "com.apple.keylayout.Spanish"@[20]);
    reveal_strlit("com.apple.keylayout.Spanish-ISO");
    assert("com.apple.keylayout.Spanish-ISO"@.len() == 31);
    reveal_strlit("com.apple.keylayout.Portuguese");
    assert("com.apple.keylayout.Portuguese"@.len() == 30);
    reveal_strlit("com.apple.keylayout.Italian");
    assert("com.apple.keylayout.Italian"@.len() == 27);
    assert("com.apple.keylayout.Maltese"@[20] != "com.apple.keylayout.Italian"@[20]);
    reveal_strlit("com.apple.keylayout.Italian-Pro");
    assert("com.apple.keylayout.Italian-Pro"@.len() == 31);
    reveal_strlit("com.apple.keylayout.Irish");
    assert("com.apple.keylayout.Irish"@.len() == 25);
    reveal_strlit("com.apple.keylayout.German");
    assert("com.apple.keylayout.German"@.len() == 26);
    reveal_strlit("com.apple.keylayout.French");
    assert("com.apple.keylayout.French"@.len() == 26);
    reveal_strlit("com.apple.keylayout.French-numerical");
    assert("com.apple.keylayout.French-numerical"@.len() == 36);
    reveal_strlit("com.apple.keylayout.French-PC");
    assert("com.apple.keylayout.French-PC"@.len() == 29);
    reveal_strlit("com.apple.keylayout.Finnish");
    assert("com.apple.keylayout.Finnish"@.len() == 27);
    assert("com.apple.keylayout.Maltese"@[20] != "com.apple.keylayout.Finnish"@[20]);
    reveal_strlit("com.apple.keylayout.Danish");
    assert("com.apple.keylayout.Danish"@.len() == 26);
    reveal_strlit("com.apple.keylayout.Canadian-CSA");
    assert("com.apple.keylayout.Canadian-CSA"@.len() == 32);
    reveal_strlit("com.apple.keylayout.British");
    assert("com.apple.keylayout.British"@.len() == 27);
    assert("com.apple.keylayout.Maltese"@[20] != "com.apple.keylayout.British"@[20]);
    reveal_strlit("com.apple.keylayout.Brazilian-ABNT2");
    assert("com.apple.keylayout.Brazilian-ABNT2"@.len() == 35);
    reveal_strlit("com.apple.keylayout.Belgian");
    assert("com.apple.keylayout.Belgian"@.len() == 27);
    assert("com.apple.keylayout.Maltese"@[20] != "com.apple.keylayout.Belgian"@[20]);
    reveal_strlit("com.apple.keylayout.Austrian");
    assert("com.apple.keylayout.Austrian"@.len() == 28);
    reveal_strlit("com.apple.keylayout.Slovak-QWERTY");
    assert("com.apple.keylayout.Slovak-QWERTY"@.len() == 33);
    reveal_strlit("com.apple.keylayout.Slovak");
    assert("com.apple.keylayout.Slovak"@.len() == 26);
    reveal_strlit("com.apple.keylayout.Polish");
    assert("com.apple.keylayout.Polish"@.len() == 26);
    reveal_strlit("com.apple.keylayout.Lithuanian");
    assert("com.apple.keylayout.Lithuanian"@.len() == 30);
    reveal_strlit("com.apple.keylayout.Hungarian");
    assert("com.apple.keylayout.Hungarian"@.len() == 29);
    reveal_strlit("com.apple.keylayout.Hungarian-QWERTY");
    assert("com.apple.keylayout.Hungarian-QWERTY"@.len() == 36);
    reveal_strlit("com.apple.keylayout.Czech-QWERTY");
    assert("com.apple.keylayout.Czech-QWERTY"@.len() == 32);
}

proof fn lemma_layout_44()
    ensures
        layout_table("com.apple.keylayout.Turkish"@) == Some(("|}(#>&^-/`$%@]~*,[\"<_.{:'\\)"@, "ÜI%\"Ç)/ş.<'(*ı>_öğ-ÖŞçĞ$,ü:"@)),
{
    reveal_strlit("com.apple.keylayout.Turkish");
    assert("com.apple.keylayout.Turkish"@.len() == 27);
    reveal_strlit("com.apple.keylayout.Welsh");
    assert("com.apple.keylayout.Welsh"@.len() == 25);
    reveal_strlit("com.apple.keylayout.Turkmen");
    assert("com.apple.keylayout.Turkmen"@.len() == 27);
    assert("com.apple.keylayout.Turkish"@[24] != "com.apple.keylayout.Turkmen"@[24]);
    reveal_strlit("com.apple.keylayout.Turkish-QWERTY-PC");
    assert("com.apple.keylayout.Turkish-QWERTY-PC"@.len() == 37);
    reveal_strlit("com.apple.keylayout.Sami-PC");
    assert("com.apple.keylayout.Sami-PC"@.len() == 27);
    assert("com.apple.keylayout.Turkish"@[20] != "com.apple.keylayout.Sami-PC"@[20]);
    reveal_strlit("com.apple.keylayout.LatinAmerican");
    assert("com.apple.keylayout.LatinAmerican"@.len() == 33);
    reveal_strlit("com.apple.keylayout.IrishExtended");
    assert("com.apple.keylayout.IrishExtended"@.len() == 33);
    reveal_strlit("com.apple.keylayout.Icelandic");
    assert("com.apple.keylayout.Icelandic"@.len() == 29);
    reveal_strlit("com.apple.keylayout.German-DIN-2137");
    assert("com.apple.keylayout.German-DIN-2137"@.len() == 35);
    reveal_strlit("com.apple.keylayout.FinnishSami-PC");
    assert("com.apple.keylayout.FinnishSami-PC"@.len() == 34);
    reveal_strlit("com.apple.keylayout.FinnishExtended");
    assert("com.apple.keylayout.FinnishExtended"@.len() == 35);
    reveal_strlit("com.apple.keylayout.Faroese");
    assert("com.apple.keylayout.Faroese"@.len() == 27);
    assert("com.apple.keylayout.Turkish"@[20] != "com.apple.keylayout.Faroese"@[20]);
    reveal_strlit("com.apple.keylayout.Croatian-PC");
    assert("com.apple.keylayout.Croatian-PC"@.len() == 31);
    reveal_strlit("com.apple.keylayout.Croatian");
    assert("com.apple.keylayout.Croatian"@.len() == 28);
    reveal_strlit("com.apple.keylayout.Azeri");
    assert("com.apple.keylayout.Azeri"@.len() == 25);
    reveal_strlit("com.apple.keylayout.Albanian");
    assert("com.apple.keylayout.Albanian"@.len() == 28);
    reveal_strlit("com.apple.keylayout.SwissFrench");
    assert("com.apple.keylayout.SwissFrench"@.len() == 31);
    reveal_strlit("com.apple.keylayout.Swedish");
    assert("com.apple.keylayout.Swedish"@.len() == 27);
    assert("com.apple.keylayout.Turkish"@[20] != "com.apple.keylayout.Swedish"@[20]);
    reveal_strlit("com.apple.keylayout.Swedish-Pro");
    assert("com.apple.keylayout.Swedish-Pro"@.len() == 31);
    reveal_strlit("com.apple.keylayout.Spanish");
    assert("com.apple.keylayout.Spanish"@.len() == 27);
    assert("com.apple.keylayout.Turkish"@[20] != "com.apple.keylayout.Spanish"@[20]);
    reveal_strlit("com.apple.keylayout.Spanish-ISO");
    assert("com.apple.keylayout.Spanish-ISO"@.len() == 31);
    reveal_strlit("com.apple.keylayout.Portuguese");
    assert("com.apple.keylayout.Portuguese"@.len() == 30);
    reveal_strlit("com.apple.keylayout.Italian");
    assert("com.apple.keylayout.Italian"@.len() == 27);
    assert("com.apple.keylayout.Turkish"@[20] != "com.apple.keylayout.Italian"@[20]);
    reveal_strlit("com.apple.keylayout.Italian-Pro");
    assert("com.apple.keylayout.Italian-Pro"@.len() == 31);
    reveal_strlit("com.apple.keylayout.Irish");
    assert("com.apple.keylayout.Irish"@.len() == 25);
    reveal_strlit("com.apple.keylayout.German");
    assert("com.apple.keylayout.German"@.len() == 26);
    reveal_strlit("com.apple.keylayout.French");
    assert("com.apple.keylayout.French"@.len() == 26);
    reveal_strlit("com.apple.keylayout.French-numerical");
    assert("com.apple.keylayout.French-numerical"@.len() == 36);
    reveal_strlit("com.apple.keylayout.French-PC");
    assert("com.apple.keylayout.French-PC"@.len() == 29);
    reveal_strlit("com.apple.keylayout.Finnish");
    assert("com.apple.keylayout.Finnish"@.len() == 27);
    assert("com.apple.keylayout.Turkish"@[20] != "com.apple.keylayout.Finnish"@[20]);
    reveal_strlit("com.apple.keylayout.Danish");
    assert("com.apple.keylayout.Danish"@.len() == 26);
    reveal_strlit("com.apple.keylayout.Canadian-CSA");
    assert("com.apple.keylayout.Canadian-CSA"@.len() == 32);
    reveal_strlit("com.apple.keylayout.British");
    assert("com.apple.keylayout.British"@.len() == 27);
    assert("com.apple.keylayout.Turkish"@[20] != "com.apple.keylayout.British"@[20]);
    reveal_strlit("com.apple.keylayout.Brazilian-ABNT2");
    assert("com.apple.keylayout.Brazilian-ABNT2"@.len() == 35);
    reveal_strlit("com.apple.keylayout.Belgian");
    assert("com.apple.keylayout.Belgian"@.len() == 27);
    assert("com.apple.keylayout.Turkish"@[20] != "com.apple.keylayout.Belgian"@[20]);
    reveal_strlit("com.apple.keylayout.Austrian");
    assert("com.apple.keylayout.Austrian"@.len() == 28);
    reveal_strlit("com.apple.keylayout.Slovak-QWERTY");
    assert("com.apple.keylayout.Slovak-QWERTY"@.len() == 33);
    reveal_strlit("com.apple.keylayout.Slovak");
    assert("com.apple.keylayout.Slovak"@.len() == 26);
    reveal_strlit("com.apple.keylayout.Polish");
    assert("com.apple.keylayout.Polish"@.len() == 26);
    reveal_strlit("com.apple.keylayout.Lithuanian");
    assert("com.apple.keylayout.Lithuanian"@.len() == 30);
    reveal_strlit("com.apple.keylayout.Hungarian");
    assert("com.apple.keylayout.Hungarian"@.len() == 29);
    reveal_strlit("com.apple.keylayout.Hungarian-QWERTY");
    assert("com.apple.keylayout.Hungarian-QWERTY"@.len() == 36);
    reveal_strlit("com.apple.keylayout.Czech-QWERTY");
    assert("com.apple.keylayout.Czech-QWERTY"@.len() == 32);
    reveal_strlit("com.apple.keylayout.Maltese");
    assert("com.apple.keylayout.Maltese"@.len() == 27);
    assert("com.apple.keylayout.Turkish"@[20] != "com.apple.keylayout.Maltese"@[20]);
}

proof fn lemma_layout_45()
    ensures
        layout_table("com.apple.keylayout.Turkish-Standard"@) == Some(("|}(#>=&^`@]~*,;[\"<.{:'\\)"@, "ÜI)^;*'&ö\"ıÖ(.çğŞ:,ĞÇşü="@)),
{
    reveal_strlit("com.apple.keylayout.Turkish-Standard");
    assert("com.apple.keylayout.Turkish-Standard"@.len() == 36);
    reveal_strlit("com.apple.keylayout.Welsh");
    assert("com.apple.keylayout.Welsh"@.len() == 25);
    reveal_strlit("com.apple.keylayout.Turkmen");
    assert("com.apple.keylayout.Turkmen"@.len() == 27);
    reveal_strlit("com.apple.keylayout.Turkish-QWERTY-PC");
    assert("com.apple.keylayout.Turkish-QWERTY-PC"@.len() == 37);
    reveal_strlit("com.apple.keylayout.Sami-PC");
    assert("com.apple.keylayout.Sami-PC"@.len() == 27);
    reveal_strlit("com.apple.keylayout.LatinAmerican");
    assert("com.apple.keylayout.LatinAmerican"@.len() == 33);
    reveal_strlit("com.apple.keylayout.IrishExtended");
    assert("com.apple.keylayout.IrishExtended"@.len() == 33);
    reveal_strlit("com.apple.keylayout.Icelandic");
    assert("com.apple.keylayout.Icelandic"@.len() == 29);
    reveal_strlit("com.apple.keylayout.German-DIN-2137");
    assert("com.apple.keylayout.German-DIN-2137"@.len() == 35);
    reveal_strlit("com.apple.keylayout.FinnishSami-PC");
    assert("com.apple.keylayout.FinnishSami-PC"@.len() == 34);
    reveal_strlit("com.apple.keylayout.FinnishExtended");
    assert("com.apple.keylayout.FinnishExtended"@.len() == 35);
    reveal_strlit("com.apple.keylayout.Faroese");
    assert("com.apple.keylayout.Faroese"@.len() == 27);
    reveal_strlit("com.apple.keylayout.Croatian-PC");
    assert("com.apple.keylayout.Croatian-PC"@.len() == 31);
    reveal_strlit("com.apple.keylayout.Croatian");
    assert("com.apple.keylayout.Croatian"@.len() == 28);
    reveal_strlit("com.apple.keylayout.Azeri");
    assert("com.apple.keylayout.Azeri"@.len() == 25);
    reveal_strlit("com.apple.keylayout.Albanian");
    assert("com.apple.keylayout.Albanian"@.len() == 28);
    reveal_strlit("com.apple.keylayout.SwissFrench");
    assert("com.apple.keylayout.SwissFrench"@.len() == 31);
    reveal_strlit("com.apple.keylayout.Swedish");
    assert("com.apple.keylayout.Swedish"@.len() == 27);
    reveal_strlit("com.apple.keylayout.Swedish-Pro");
    assert("com.apple.keylayout.Swedish-Pro"@.len() == 31);
    reveal_strlit("com.apple.keylayout.Spanish");
    assert("com.apple.keylayout.Spanish"@.len() == 27);
    reveal_strlit("com.apple.keylayout.Spanish-ISO");
    assert("com.apple.keylayout.Spanish-ISO"@.len() == 31);
    reveal_strlit("com.apple.keylayout.Portuguese");
    assert("com.apple.keylayout.Portuguese"@.len() == 30);
    reveal_strlit("com.apple.keylayout.Italian");
    assert("com.apple.keylayout.Italian"@.len() == 27);
    reveal_strlit("com.apple.keylayout.Italian-Pro");
    assert("com.apple.keylayout.Italian-Pro"@.len() == 31);
    reveal_strlit("com.apple.keylayout.Irish");
    assert("com.apple.keylayout.Irish"@.len() == 25);
    reveal_strlit("com.apple.keylayout.German");
    assert("com.apple.keylayout.German"@.len() == 26);
    reveal_strlit("com.apple.keylayout.French");
    assert("com.apple.keylayout.French"@.len() == 26);
    reveal_strlit("com.apple.keylayout.French-numerical");
    assert("com.apple.keylayout.French-numerical"@.len() == 36);
    assert("com.apple.keylayout.Turkish-Standard"@[20] != "com.apple.keylayout.French-numerical"@[20]);
    reveal_strlit("com.apple.keylayout.French-PC");
    assert("com.apple.keylayout.French-PC"@.len() == 29);
    reveal_strlit("com.apple.keylayout.Finnish");
    assert("com.apple.keylayout.Finnish"@.len() == 27);
    reveal_strlit("com.apple.keylayout.Danish");
    assert("com.apple.keylayout.Danish"@.len() == 26);
    reveal_strlit("com.apple.keylayout.Canadian-CSA");
    assert("com.apple.keylayout.Canadian-CSA"@.len() == 32);
    reveal_strlit("com.apple.keylayout.British");
    assert("com.apple.keylayout.British"@.len() == 27);
    reveal_strlit("com.apple.keylayout.Brazilian-ABNT2");
    assert("com.apple.keylayout.Brazilian-ABNT2"@.len() == 35);
    reveal_strlit("com.apple.keylayout.Belgian");
    assert("com.apple.keylayout.Belgian"@.len() == 27);
    reveal_strlit("com.apple.keylayout.Austrian");
    assert("com.apple.keylayout.Austrian"@.len() == 28);
    reveal_strlit("com.apple.keylayout.Slovak-QWERTY");
    assert("com.apple.keylayout.Slovak-QWERTY"@.len() == 33);
    reveal_strlit("com.apple.keylayout.Slovak");
    assert("com.apple.keylayout.Slovak"@.len() == 26);
    reveal_strlit("com.apple.keylayout.Polish");
    assert("com.apple.keylayout.Polish"@.len() == 26);
    reveal_strlit("com.apple.keylayout.Lithuanian");
    assert("com.apple.keylayout.Lithuanian"@.len() == 30);
    reveal_strlit("com.apple.keylayout.Hungarian");
    assert("com.apple.keylayout.Hungarian"@.len() == 29);
    reveal_strlit("com.apple.keylayout.Hungarian-QWERTY");
    assert("com.apple.keylayout.Hungarian-QWERTY"@.len() == 36);
    assert("com.apple.keylayout.Turkish-Standard"@[20] != "com.apple.keylayout.Hungarian-QWERTY"@[20]);
    reveal_strlit("com.apple.keylayout.Czech-QWERTY");
    assert("com.apple.keylayout.Czech-QWERTY"@.len() == 32);
    reveal_strlit("com.apple.keylayout.Maltese");
    assert("com.apple.keylayout.Maltese"@.len() == 27);
    reveal_strlit("com.apple.keylayout.Turkish");
    assert("com.apple.keylayout.Turkish"@.len() == 27);
}

proof fn lemma_layout_46()
    ensures
        layout_table("com.apple.keylayout.NorwegianSami-PC"@) == Some(("\"}~<`&>':{@*^|\\)=([]/;"@, "ˆÆ>;</:¨ÅØ\"(&*@=`)øæ´å"@)),
{
    reveal_strlit("com.apple.keylayout.NorwegianSami-PC");
    assert("com.apple.keylayout.NorwegianSami-PC"@.len() == 36);
    reveal_strlit("com.apple.keylayout.Welsh");
    assert("com.apple.keylayout.Welsh"@.len() == 25);
    reveal_strlit("com.apple.keylayout.Turkmen");
    assert("com.apple.keylayout.Turkmen"@.len() == 27);
    reveal_strlit("com.apple.keylayout.Turkish-QWERTY-PC");
    assert("com.apple.keylayout.Turkish-QWERTY-PC"@.len() == 37);
    reveal_strlit("com.apple.keylayout.Sami-PC");
    assert("com.apple.keylayout.Sami-PC"@.len() == 27);
    reveal_strlit("com.apple.keylayout.LatinAmerican");
    assert("com.apple.keylayout.LatinAmerican"@.len() == 33);
    reveal_strlit("com.apple.keylayout.IrishExtended");
    assert("com.apple.keylayout.IrishExtended"@.len() == 33);
    reveal_strlit("com.apple.keylayout.Icelandic");
    assert("com.apple.keylayout.Icelandic"@.len() == 29);
    reveal_strlit("com.apple.keylayout.German-DIN-2137");
    assert("com.apple.keylayout.German-DIN-2137"@.len() == 35);
    reveal_strlit("com.apple.keylayout.FinnishSami-PC");
    assert("com.apple.keylayout.FinnishSami-PC"@.len() == 34);
    reveal_strlit("com.apple.keylayout.FinnishExtended");
    assert("com.apple.keylayout.FinnishExtended"@.len() == 35);
    reveal_strlit("com.apple.keylayout.Faroese");
    assert("com.apple.keylayout.Faroese"@.len() == 27);
    reveal_strlit("com.apple.keylayout.Croatian-PC");
    assert("com.apple.keylayout.Croatian-PC"@.len() == 31);
    reveal_strlit("com.apple.keylayout.Croatian");
    assert("com.apple.keylayout.Croatian"@.len() == 28);
    reveal_strlit("com.apple.keylayout.Azeri");
    assert("com.apple.keylayout.Azeri"@.len() == 25);
    reveal_strlit("com.apple.keylayout.Albanian");
    assert("com.apple.keylayout.Albanian"@.len() == 28);
    reveal_strlit("com.apple.keylayout.SwissFrench");
    assert("com.apple.keylayout.SwissFrench"@.len() == 31);
    reveal_strlit("com.apple.keylayout.Swedish");
    assert("com.apple.keylayout.Swedish"@.len() == 27);
    reveal_strlit("com.apple.keylayout.Swedish-Pro");
    assert("com.apple.keylayout.Swedish-Pro"@.len() == 31);
    reveal_strlit("com.apple.keylayout.Spanish");
    assert("com.apple.keylayout.Spanish"@.len() == 27);
    reveal_strlit("com.apple.keylayout.Spanish-ISO");
    assert("com.apple.keylayout.Spanish-ISO"@.len() == 31);
    reveal_strlit("com.apple.keylayout.Portuguese");
    assert("com.apple.keylayout.Portuguese"@.len() == 30);
    reveal_strlit("com.apple.keylayout.Italian");
    assert("com.apple.keylayout.Italian"@.len() == 27);
    reveal_strlit("com.apple.keylayout.Italian-Pro");
    assert("com.apple.keylayout.Italian-Pro"@.len() == 31);
    reveal_strlit("com.apple.keylayout.Irish");
    assert("com.apple.keylayout.Irish"@.len() == 25);
    reveal_strlit("com.apple.keylayout.German");
    assert("com.apple.keylayout.German"@.len() == 26);
    reveal_strlit("com.apple.keylayout.French");
    assert("com.apple.keylayout.French"@.len() == 26);
    reveal_strlit("com.apple.keylayout.French-numerical");
    assert("com.apple.keylayout.French-numerical"@.len() == 36);
    assert("com.apple.keylayout.NorwegianSami-PC"@[20] != "com.apple.keylayout.French-numerical"@[20]);
    reveal_strlit("com.apple.keylayout.French-PC");
    assert("com.apple.keylayout.French-PC"@.len() == 29);
    reveal_strlit("com.apple.keylayout.Finnish");
    assert("com.apple.keylayout.Finnish"@.len() == 27);
    reveal_strlit("com.apple.keylayout.Danish");
    assert("com.apple.keylayout.Danish"@.len() == 26);
    reveal_strlit("com.apple.keylayout.Canadian-CSA");
    assert("com.apple.keylayout.Canadian-CSA"@.len() == 32);
    reveal_strlit("com.apple.keylayout.British");
    assert("com.apple.keylayout.British"@.len() == 27);
    reveal_strlit("com.apple.keylayout.Brazilian-ABNT2");
    assert("com.apple.keylayout.Brazilian-ABNT2"@.len() == 35);
    reveal_strlit("com.apple.keylayout.Belgian");
    assert("com.apple.keylayout.Belgian"@.len() == 27);
    reveal_strlit("com.apple.keylayout.Austrian");
    assert("com.apple.keylayout.Austrian"@.len() == 28);
    reveal_strlit("com.apple.keylayout.Slovak-QWERTY");
    assert("com.apple.keylayout.Slovak-QWERTY"@.len() == 33);
    reveal_strlit("com.apple.keylayout.Slovak");
    assert("com.apple.keylayout.Slovak"@.len() == 26);
    reveal_strlit("com.apple.keylayout.Polish");
    assert("com.apple.keylayout.Polish"@.len() == 26);
    reveal_strlit("com.apple.keylayout.Lithuanian");
    assert("com.apple.keylayout.Lithuanian"@.len() == 30);
    reveal_strlit("com.apple.keylayout.Hungarian");
    assert("com.apple.keylayout.Hungarian"@.len() == 29);
    reveal_strlit("com.apple.keylayout.Hungarian-QWERTY");
    assert("com.apple.keylayout.Hungarian-QWERTY"@.len() == 36);
    assert("com.apple.keylayout.NorwegianSami-PC"@[20] != "com.apple.keylayout.Hungarian-QWERTY"@[20]);
    reveal_strlit("com.apple.keylayout.Czech-QWERTY");
    assert("com.apple.keylayout.Czech-QWERTY"@.len() == 32);
    reveal_strlit("com.apple.keylayout.Maltese");
    assert("com.apple.keylayout.Maltese"@.len() == 27);
    reveal_strlit("com.apple.keylayout.Turkish");
    assert("com.apple.keylayout.Turkish"@.len() == 27);
    reveal_strlit("com.apple.keylayout.Turkish-Standard");
    assert("com.apple.keylayout.Turkish-Standard"@.len() == 36);
    assert("com.apple.keylayout.NorwegianSami-PC"@[20] != "com.apple.keylayout.Turkish-Standard"@[20]);
}

proof fn lemma_layout_47()
    ensures
        layout_table("com.apple.keylayout.Serbian-Latin"@) == Some((";\\@>&'<]\"|(=}^)`[~:*{"@, "čž\":'ć;đĆŽ)*Đ&=<š>Č(Š"@)),
{
    reveal_strlit("com.apple.keylayout.Serbian-Latin");
    assert("com.apple.keylayout.Serbian-Latin"@.len() == 33);
    reveal_strlit("com.apple.keylayout.Welsh");
    assert("com.apple.keylayout.Welsh"@.len() == 25);
    reveal_strlit("com.apple.keylayout.Turkmen");
    assert("com.apple.keylayout.Turkmen"@.len() == 27);
    reveal_strlit("com.apple.keylayout.Turkish-QWERTY-PC");
    assert("com.apple.keylayout.Turkish-QWERTY-PC"@.len() == 37);
    reveal_strlit("com.apple.keylayout.Sami-PC");
    assert("com.apple.keylayout.Sami-PC"@.len() == 27);
    reveal_strlit("com.apple.keylayout.LatinAmerican");
    assert("com.apple.keylayout.LatinAmerican"@.len() == 33);
    assert("com.apple.keylayout.Serbian-Latin"@[20] != "com.apple.keylayout.LatinAmerican"@[20]);
    reveal_strlit("com.apple.keylayout.IrishExtended");
    assert("com.apple.keylayout.IrishExtended"@.len() == 33);
    assert("com.apple.keylayout.Serbian-Latin"@[20] != "com.apple.keylayout.IrishExtended"@[20]);
    reveal_strlit("com.apple.keylayout.Icelandic");
    assert("com.apple.keylayout.Icelandic"@.len() == 29);
    reveal_strlit("com.apple.keylayout.German-DIN-2137");
    assert("com.apple.keylayout.German-DIN-2137"@.len() == 35);
    reveal_strlit("com.apple.keylayout.FinnishSami-PC");
    assert("com.apple.keylayout.FinnishSami-PC"@.len() == 34);
    reveal_strlit("com.apple.keylayout.FinnishExtended");
    assert("com.apple.keylayout.FinnishExtended"@.len() == 35);
    reveal_strlit("com.apple.keylayout.Faroese");
    assert("com.apple.keylayout.Faroese"@.len() == 27);
    reveal_strlit("com.apple.keylayout.Croatian-PC");
    assert("com.apple.keylayout.Croatian-PC"@.len() == 31);
    reveal_strlit("com.apple.keylayout.Croatian");
    assert("com.apple.keylayout.Croatian"@.len() == 28);
    reveal_strlit("com.apple.keylayout.Azeri");
    assert("com.apple.keylayout.Azeri"@.len() == 25);
    reveal_strlit("com.apple.keylayout.Albanian");
    assert("com.apple.keylayout.Albanian"@.len() == 28);
    reveal_strlit("com.apple.keylayout.SwissFrench");
    assert("com.apple.keylayout.SwissFrench"@.len() == 31);
    reveal_strlit("com.apple.keylayout.Swedish");
    assert("com.apple.keylayout.Swedish"@.len() == 27);
    reveal_strlit("com.apple.keylayout.Swedish-Pro");
    assert("com.apple.keylayout.Swedish-Pro"@.len() == 31);
    reveal_strlit("com.apple.keylayout.Spanish");
    assert("com.apple.keylayout.Spanish"@.len() == 27);
    reveal_strlit("com.apple.keylayout.Spanish-ISO");
    assert("com.apple.keylayout.Spanish-ISO"@.len() == 31);
    reveal_strlit("com.apple.keylayout.Portuguese");
    assert("com.apple.keylayout.Portuguese"@.len() == 30);
    reveal_strlit("com.apple.keylayout.Italian");
    assert("com.apple.keylayout.Italian"@.len() == 27);
    reveal_strlit("com.apple.keylayout.Italian-Pro");
    assert("com.apple.keylayout.Italian-Pro"@.len() == 31);
    reveal_strlit("com.apple.keylayout.Irish");
    assert("com.apple.keylayout.Irish"@.len() == 25);
    reveal_strlit("com.apple.keylayout.German");
    assert("com.apple.keylayout.German"@.len() == 26);
    reveal_strlit("com.apple.keylayout.French");
    assert("com.apple.keylayout.French"@.len() == 26);
    reveal_strlit("com.apple.keylayout.French-numerical");
    assert("com.apple.keylayout.French-numerical"@.len() == 36);
    reveal_strlit("com.apple.keylayout.French-PC");
    assert("com.apple.keylayout.French-PC"@.len() == 29);
    reveal_strlit("com.apple.keylayout.Finnish");
    assert("com.apple.keylayout.Finnish"@.len() == 27);
    reveal_strlit("com.apple.keylayout.Danish");
    assert("com.apple.keylayout.Danish"@.len() == 26);
    reveal_strlit("com.apple.keylayout.Canadian-CSA");
    assert("com.apple.keylayout.Canadian-CSA"@.len() == 32);
    reveal_strlit("com.apple.keylayout.British");
    assert("com.apple.keylayout.British"@.len() == 27);
    reveal_strlit("com.apple.keylayout.Brazilian-ABNT2");
    assert("com.apple.keylayout.Brazilian-ABNT2"@.len() == 35);
    reveal_strlit("com.apple.keylayout.Belgian");
    assert("com.apple.keylayout.Belgian"@.len() == 27);
    reveal_strlit("com.apple.keylayout.Austrian");
    assert("com.apple.keylayout.Austrian"@.len() == 28);
    reveal_strlit("com.apple.keylayout.Slovak-QWERTY");
    assert("com.apple.keylayout.Slovak-QWERTY"@.len() == 33);
    assert("com.apple.keylayout.Serbian-Latin"@[21] != "com.apple.keylayout.Slovak-QWERTY"@[21]);
    reveal_strlit("com.apple.keylayout.Slovak");
    assert("com.apple.keylayout.Slovak"@.len() == 26);
    reveal_strlit("com.apple.keylayout.Polish");
    assert("com.apple.keylayout.Polish"@.len() == 26);
    reveal_strlit("com.apple.keylayout.Lithuanian");
    assert("com.apple.keylayout.Lithuanian"@.len() == 30);
    reveal_strlit("com.apple.keylayout.Hungarian");
    assert("com.apple.keylayout.Hungarian"@.len() == 29);
    reveal_strlit("com.apple.keylayout.Hungarian-QWERTY");
    assert("com.apple.keylayout.Hungarian-QWERTY"@.len() == 36);
    reveal_strlit("com.apple.keylayout.Czech-QWERTY");
    assert("com.apple.keylayout.Czech-QWERTY"@.len() == 32);
    reveal_strlit("com.apple.keylayout.Maltese");
    assert("com.apple.keylayout.Maltese"@.len() == 27);
    reveal_strlit("com.apple.keylayout.Turkish");
    assert("com.apple.keylayout.Turkish"@.len() == 27);
    reveal_strlit("com.apple.keylayout.Turkish-Standard");
    assert("com.apple.keylayout.Turkish-Standard"@.len() == 36);
    reveal_strlit("com.apple.keylayout.NorwegianSami-PC");
    assert("com.apple.keylayout.NorwegianSami-PC"@.len() == 36);
}

proof fn lemma_layout_48()
    ensures
        layout_table("com.apple.keylayout.Slovenian"@) == Some(("]`^@)&\":'*=<{;}(~>\\|["@, "đ<&\"='ĆČć(*;ŠčĐ)>:žŽš"@)),
{
    reveal_strlit("com.apple.keylayout.Slovenian");
    assert("com.apple.keylayout.Slovenian"@.len() == 29);
    reveal_strlit("com.apple.keylayout.Welsh");
    assert("com.apple.keylayout.Welsh"@.len() == 25);
    reveal_strlit("com.apple.keylayout.Turkmen");
    assert("com.apple.keylayout.Turkmen"@.len() == 27);
    reveal_strlit("com.apple.keylayout.Turkish-QWERTY-PC");
    assert("com.apple.keylayout.Turkish-QWERTY-PC"@.len() == 37);
    reveal_strlit("com.apple.keylayout.Sami-PC");
    assert("com.apple.keylayout.Sami-PC"@.len() == 27);
    reveal_strlit("com.apple.keylayout.LatinAmerican");
    assert("com.apple.keylayout.LatinAmerican"@.len() == 33);
    reveal_strlit("com.apple.keylayout.IrishExtended");
    assert("com.apple.keylayout.IrishExtended"@.len() == 33);
    reveal_strlit("com.apple.keylayout.Icelandic");
    assert("com.apple.keylayout.Icelandic"@.len() == 29);
    assert("com.apple.keylayout.Slovenian"@[20] != "com.apple.keylayout.Icelandic"@[20]);
    reveal_strlit("com.apple.keylayout.German-DIN-2137");
    assert("com.apple.keylayout.German-DIN-2137"@.len() == 35);
    reveal_strlit("com.apple.keylayout.FinnishSami-PC");
    assert("com.apple.keylayout.FinnishSami-PC"@.len() == 34);
    reveal_strlit("com.apple.keylayout.FinnishExtended");
    assert("com.apple.keylayout.FinnishExtended"@.len() == 35);
    reveal_strlit("com.apple.keylayout.Faroese");
    assert("com.apple.keylayout.Faroese"@.len() == 27);
    reveal_strlit("com.apple.keylayout.Croatian-PC");
    assert("com.apple.keylayout.Croatian-PC"@.len() == 31);
    reveal_strlit("com.apple.keylayout.Croatian");
    assert("com.apple.keylayout.Croatian"@.len() == 28);
    reveal_strlit("com.apple.keylayout.Azeri");
    assert("com.apple.keylayout.Azeri"@.len() == 25);
    reveal_strlit("com.apple.keylayout.Albanian");
    assert("com.apple.keylayout.Albanian"@.len() == 28);
    reveal_strlit("com.apple.keylayout.SwissFrench");
    assert("com.apple.keylayout.SwissFrench"@.len() == 31);
    reveal_strlit("com.apple.keylayout.Swedish");
    assert("com.apple.keylayout.Swedish"@.len() == 27);
    reveal_strlit("com.apple.keylayout.Swedish-Pro");
    assert("com.apple.keylayout.Swedish-Pro"@.len() == 31);
    reveal_strlit("com.apple.keylayout.Spanish");
    assert("com.apple.keylayout.Spanish"@.len() == 27);
    reveal_strlit("com.apple.keylayout.Spanish-ISO");
    assert("com.apple.keylayout.Spanish-ISO"@.len() == 31);
    reveal_strlit("com.apple.keylayout.Portuguese");
    assert("com.apple.keylayout.Portuguese"@.len() == 30);
    reveal_strlit("com.apple.keylayout.Italian");
    assert("com.apple.keylayout.Italian"@.len() == 27);
    reveal_strlit("com.apple.keylayout.Italian-Pro");
    assert("com.apple.keylayout.Italian-Pro"@.len() == 31);
    reveal_strlit("com.apple.keylayout.Irish");
    assert("com.apple.keylayout.Irish"@.len() == 25);
    reveal_strlit("com.apple.keylayout.German");
    assert("com.apple.keylayout.German"@.len() == 26);
    reveal_strlit("com.apple.keylayout.French");
    assert("com.apple.keylayout.French"@.len() == 26);
    reveal_strlit("com.apple.keylayout.French-numerical");
    assert("com.apple.keylayout.French-numerical"@.len() == 36);
    reveal_strlit("com.apple.keylayout.French-PC");
    assert("com.apple.keylayout.French-PC"@.len() == 29);
    assert("com.apple.keylayout.Slovenian"@[20] != "com.apple.keylayout.French-PC"@[20]);
    reveal_strlit("com.apple.keylayout.Finnish");
    assert("com.apple.keylayout.Finnish"@.len() == 27);
    reveal_strlit("com.apple.keylayout.Danish");
    assert("com.apple.keylayout.Danish"@.len() == 26);
    reveal_strlit("com.apple.keylayout.Canadian-CSA");
    assert("com.apple.keylayout.Canadian-CSA"@.len() == 32);
    reveal_strlit("com.apple.keylayout.British");
    assert("com.apple.keylayout.British"@.len() == 27);
    reveal_strlit("com.apple.keylayout.Brazilian-ABNT2");
    assert("com.apple.keylayout.Brazilian-ABNT2"@.len() == 35);
    reveal_strlit("com.apple.keylayout.Belgian");
    assert("com.apple.keylayout.Belgian"@.len() == 27);
    reveal_strlit("com.apple.keylayout.Austrian");
    assert("com.apple.keylayout.Austrian"@.len() == 28);
    reveal_strlit("com.apple.keylayout.Slovak-QWERTY");
    assert("com.apple.keylayout.Slovak-QWERTY"@.len() == 33);
    reveal_strlit("com.apple.keylayout.Slovak");
    assert("com.apple.keylayout.Slovak"@.len() == 26);
    reveal_strlit("com.apple.keylayout.Polish");
    assert("com.apple.keylayout.Polish"@.len() == 26);
    reveal_strlit("com.apple.keylayout.Lithuanian");
    assert("com.apple.keylayout.Lithuanian"@.len() == 30);
    reveal_strlit("com.apple.keylayout.Hungarian");
    assert("com.apple.keylayout.Hungarian"@.len() == 29);
    assert("com.apple.keylayout.Slovenian"@[20] != "com.apple.keylayout.Hungarian"@[20]);
    reveal_strlit("com.apple.keylayout.Hungarian-QWERTY");
    assert("com.apple.keylayout.Hungarian-QWERTY"@.len() == 36);
    reveal_strlit("com.apple.keylayout.Czech-QWERTY");
    assert("com.apple.keylayout.Czech-QWERTY"@.len() == 32);
    reveal_strlit("com.apple.keylayout.Maltese");
    assert("com.apple.keylayout.Maltese"@.len() == 27);
    reveal_strlit("com.apple.keylayout.Turkish");
    assert("com.apple.keylayout.Turkish"@.len() == 27);
    reveal_strlit("com.apple.keylayout.Turkish-Standard");
    assert("com.apple.keylayout.Turkish-Standard"@.len() == 36);
    reveal_strlit("com.apple.keylayout.NorwegianSami-PC");
    assert("com.apple.keylayout.NorwegianSami-PC"@.len() == 36);
    reveal_strlit("com.apple.keylayout.Serbian-Latin");
    assert("com.apple.keylayout.Serbian-Latin"@.len() == 33);
}

proof fn lemma_layout_49()
    ensures
        layout_table("com.apple.keylayout.SwedishSami-PC"@) == Some(("@=<^|`>){'&\"}]~[/:*\\(;"@, "\"`;&*<:=Ö¨/ˆÄä>ö´Å(@)å"@)),
{
    reveal_strlit("com.apple.keylayout.SwedishSami-PC");
    assert("com.apple.keylayout.SwedishSami-PC"@.len() == 34);
    reveal_strlit("com.apple.keylayout.Welsh");
    assert("com.apple.keylayout.Welsh"@.len() == 25);
    reveal_strlit("com.apple.keylayout.Turkmen");
    assert("com.apple.keylayout.Turkmen"@.len() == 27);
    reveal_strlit("com.apple.keylayout.Turkish-QWERTY-PC");
    assert("com.apple.keylayout.Turkish-QWERTY-PC"@.len() == 37);
    reveal_strlit("com.apple.keylayout.Sami-PC");
    assert("com.apple.keylayout.Sami-PC"@.len() == 27);
    reveal_strlit("com.apple.keylayout.LatinAmerican");
    assert("com.apple.keylayout.LatinAmerican"@.len() == 33);
    reveal_strlit("com.apple.keylayout.IrishExtended");
    assert("com.apple.keylayout.IrishExtended"@.len() == 33);
    reveal_strlit("com.apple.keylayout.Icelandic");
    assert("com.apple.keylayout.Icelandic"@.len() == 29);
    reveal_strlit("com.apple.keylayout.German-DIN-2137");
    assert("com.apple.keylayout.German-DIN-2137"@.len() == 35);
    reveal_strlit("com.apple.keylayout.FinnishSami-PC");
    assert("com.apple.keylayout.FinnishSami-PC"@.len() == 34);
    assert("com.apple.keylayout.SwedishSami-PC"@[20] != "com.apple.keylayout.FinnishSami-PC"@[20]);
    reveal_strlit("com.apple.keylayout.FinnishExtended");
    assert("com.apple.keylayout.FinnishExtended"@.len() == 35);
    reveal_strlit("com.apple.keylayout.Faroese");
    assert("com.apple.keylayout.Faroese"@.len() == 27);
    reveal_strlit("com.apple.keylayout.Croatian-PC");
    assert("com.apple.keylayout.Croatian-PC"@.len() == 31);
    reveal_strlit("com.apple.keylayout.Croatian");
    assert("com.apple.keylayout.Croatian"@.len() == 28);
    reveal_strlit("com.apple.keylayout.Azeri");
    assert("com.apple.keylayout.Azeri"@.len() == 25);
    reveal_strlit("com.apple.keylayout.Albanian");
    assert("com.apple.keylayout.Albanian"@.len() == 28);
    reveal_strlit("com.apple.keylayout.SwissFrench");
    assert("com.apple.keylayout.SwissFrench"@.len() == 31);
    reveal_strlit("com.apple.keylayout.Swedish");
    assert("com.apple.keylayout.Swedish"@.len() == 27);
    reveal_strlit("com.apple.keylayout.Swedish-Pro");
    assert("com.apple.keylayout.Swedish-Pro"@.len() == 31);
    reveal_strlit("com.apple.keylayout.Spanish");
    assert("com.apple.keylayout.Spanish"@.len() == 27);
    reveal_strlit("com.apple.keylayout.Spanish-ISO");
    assert("com.apple.keylayout.Spanish-ISO"@.len() == 31);
    reveal_strlit("com.apple.keylayout.Portuguese");
    assert("com.apple.keylayout.Portuguese"@.len() == 30);
    reveal_strlit("com.apple.keylayout.Italian");
    assert("com.apple.keylayout.Italian"@.len() == 27);
    reveal_strlit("com.apple.keylayout.Italian-Pro");
    assert("com.apple.keylayout.Italian-Pro"@.len() == 31);
    reveal_strlit("com.apple.keylayout.Irish");
    assert("com.apple.keylayout.Irish"@.len() == 25);
    reveal_strlit("com.apple.keylayout.German");
    assert("com.apple.keylayout.German"@.len() == 26);
    reveal_strlit("com.apple.keylayout.French");
    assert("com.apple.keylayout.French"@.len() == 26);
    reveal_strlit("com.apple.keylayout.French-numerical");
    assert("com.apple.keylayout.French-numerical"@.len() == 36);
    reveal_strlit("com.apple.keylayout.French-PC");
    assert("com.apple.keylayout.French-PC"@.len() == 29);
    reveal_strlit("com.apple.keylayout.Finnish");
    assert("com.apple.keylayout.Finnish"@.len() == 27);
    reveal_strlit("com.apple.keylayout.Danish");
    assert("com.apple.keylayout.Danish"@.len() == 26);
    reveal_strlit("com.apple.keylayout.Canadian-CSA");
    assert("com.apple.keylayout.Canadian-CSA"@.len() == 32);
    reveal_strlit("com.apple.keylayout.British");
    assert("com.apple.keylayout.British"@.len() == 27);
    reveal_strlit("com.apple.keylayout.Brazilian-ABNT2");
    assert("com.apple.keylayout.Brazilian-ABNT2"@.len() == 35);
    reveal_strlit("com.apple.keylayout.Belgian");
    assert("com.apple.keylayout.Belgian"@.len() == 27);
    reveal_strlit("com.apple.keylayout.Austrian");
    assert("com.apple.keylayout.Austrian"@.len() == 28);
    reveal_strlit("com.apple.keylayout.Slovak-QWERTY");
    assert("com.apple.keylayout.Slovak-QWERTY"@.len() == 33);
    reveal_strlit("com.apple.keylayout.Slovak");
    assert("com.apple.keylayout.Slovak"@.len() == 26);
    reveal_strlit("com.apple.keylayout.Polish");
    assert("com.apple.keylayout.Polish"@.len() == 26);
    reveal_strlit("com.apple.keylayout.Lithuanian");
    assert("com.apple.keylayout.Lithuanian"@.len() == 30);
    reveal_strlit("com.apple.keylayout.Hungarian");
    assert("com.apple.keylayout.Hungarian"@.len() == 29);
    reveal_strlit("com.apple.keylayout.Hungarian-QWERTY");
    assert("com.apple.keylayout.Hungarian-QWERTY"@.len() == 36);
    reveal_strlit("com.apple.keylayout.Czech-QWERTY");
    assert("com.apple.keylayout.Czech-QWERTY"@.len() == 32);
    reveal_strlit("com.apple.keylayout.Maltese");
    assert("com.apple.keylayout.Maltese"@.len() == 27);
    reveal_strlit("com.apple.keylayout.Turkish");
    assert("com.apple.keylayout.Turkish"@.len() == 27);
    reveal_strlit("com.apple.keylayout.Turkish-Standard");
    assert("com.apple.keylayout.Turkish-Standard"@.len() == 36);
    reveal_strlit("com.apple.keylayout.NorwegianSami-PC");
    assert("com.apple.keylayout.NorwegianSami-PC"@.len() == 36);
    reveal_strlit("com.apple.keylayout.Serbian-Latin");
    assert("com.apple.keylayout.Serbian-Latin"@.len() == 33);
    reveal_strlit("com.apple.keylayout.Slovenian");
    assert("com.apple.keylayout.Slovenian"@.len() == 29);
}

proof fn lemma_layout_50()
    ensures
        layout_table("com.apple.keylayout.SwissGerman"@) == Some(("={#:\\}!(+]/<\";$'`*[>&^~@)|"@, "¨é*è$à+)!ä';`üç^<(ö:/&>\"=£"@)),
{
    reveal_strlit("com.apple.keylayout.SwissGerman");
    assert("com.apple.keylayout.SwissGerman"@.len() == 31);
    reveal_strlit("com.apple.keylayout.Welsh");
    assert("com.apple.keylayout.Welsh"@.len() == 25);
    reveal_strlit("com.apple.keylayout.Turkmen");
    assert("com.apple.keylayout.Turkmen"@.len() == 27);
    reveal_strlit("com.apple.keylayout.Turkish-QWERTY-PC");
    assert("com.apple.keylayout.Turkish-QWERTY-PC"@.len() == 37);
    reveal_strlit("com.apple.keylayout.Sami-PC");
    assert("com.apple.keylayout.Sami-PC"@.len() == 27);
    reveal_strlit("com.apple.keylayout.LatinAmerican");
    assert("com.apple.keylayout.LatinAmerican"@.len() == 33);
    reveal_strlit("com.apple.keylayout.IrishExtended");
    assert("com.apple.keylayout.IrishExtended"@.len() == 33);
    reveal_strlit("com.apple.keylayout.Icelandic");
    assert("com.apple.keylayout.Icelandic"@.len() == 29);
    reveal_strlit("com.apple.keylayout.German-DIN-2137");
    assert("com.apple.keylayout.German-DIN-2137"@.len() == 35);
    reveal_strlit("com.apple.keylayout.FinnishSami-PC");
    assert("com.apple.keylayout.FinnishSami-PC"@.len() == 34);
    reveal_strlit("com.apple.keylayout.FinnishExtended");
    assert("com.apple.keylayout.FinnishExtended"@.len() == 35);
    reveal_strlit("com.apple.keylayout.Faroese");
    assert("com.apple.keylayout.Faroese"@.len() == 27);
    reveal_strlit("com.apple.keylayout.Croatian-PC");
    assert("com.apple.keylayout.Croatian-PC"@.len() == 31);
    assert("com.apple.keylayout.SwissGerman"@[20] != "com.apple.keylayout.Croatian-PC"@[20]);
    reveal_strlit("com.apple.keylayout.Croatian");
    assert("com.apple.keylayout.Croatian"@.len() == 28);
    reveal_strlit("com.apple.keylayout.Azeri");
    assert("com.apple.keylayout.Azeri"@.len() == 25);
    reveal_strlit("com.apple.keylayout.Albanian");
    assert("com.apple.keylayout.Albanian"@.len() == 28);
    reveal_strlit("com.apple.keylayout.SwissFrench");
    assert("com.apple.keylayout.SwissFrench"@.len() == 31);
    assert("com.apple.keylayout.SwissGerman"@[25] != "com.apple.keylayout.SwissFrench"@[25]);
    reveal_strlit("com.apple.keylayout.Swedish");
    assert("com.apple.keylayout.Swedish"@.len() == 27);
    reveal_strlit("com.apple.keylayout.Swedish-Pro");
    assert("com.apple.keylayout.Swedish-Pro"@.len() == 31);
    assert("com.apple.keylayout.SwissGerman"@[22] != "com.apple.keylayout.Swedish-Pro"@[22]);
    reveal_strlit("com.apple.keylayout.Spanish");
    assert("com.apple.keylayout.Spanish"@.len() == 27);
    reveal_strlit("com.apple.keylayout.Spanish-ISO");
    assert("com.apple.keylayout.Spanish-ISO"@.len() == 31);
    assert("com.apple.keylayout.SwissGerman"@[21] != "com.apple.keylayout.Spanish-ISO"@[21]);
    reveal_strlit("com.apple.keylayout.Portuguese");
    assert("com.apple.keylayout.Portuguese"@.len() == 30);
    reveal_strlit("com.apple.keylayout.Italian");
    assert("com.apple.keylayout.Italian"@.len() == 27);
    reveal_strlit("com.apple.keylayout.Italian-Pro");
    assert("com.apple.keylayout.Italian-Pro"@.len() == 31);
    assert("com.apple.keylayout.SwissGerman"@[20] != "com.apple.keylayout.Italian-Pro"@[20]);
    reveal_strlit("com.apple.keylayout.Irish");
    assert("com.apple.keylayout.Irish"@.len() == 25);
    reveal_strlit("com.apple.keylayout.German");
    assert("com.apple.keylayout.German"@.len() == 26);
    reveal_strlit("com.apple.keylayout.French");
    assert("com.apple.keylayout.French"@.len() == 26);
    reveal_strlit("com.apple.keylayout.French-numerical");
    assert("com.apple.keylayout.French-numerical"@.len() == 36);
    reveal_strlit("com.apple.keylayout.French-PC");
    assert("com.apple.keylayout.French-PC"@.len() == 29);
    reveal_strlit("com.apple.keylayout.Finnish");
    assert("com.apple.keylayout.Finnish"@.len() == 27);
    reveal_strlit("com.apple.keylayout.Danish");
    assert("com.apple.keylayout.Danish"@.len() == 26);
    reveal_strlit("com.apple.keylayout.Canadian-CSA");
    assert("com.apple.keylayout.Canadian-CSA"@.len() == 32);
    reveal_strlit("com.apple.keylayout.British");
    assert("com.apple.keylayout.British"@.len() == 27);
    reveal_strlit("com.apple.keylayout.Brazilian-ABNT2");
    assert("com.apple.keylayout.Brazilian-ABNT2"@.len() == 35);
    reveal_strlit("com.apple.keylayout.Belgian");
    assert("com.apple.keylayout.Belgian"@.len() == 27);
    reveal_strlit("com.apple.keylayout.Austrian");
    assert("com.apple.keylayout.Austrian"@.len() == 28);
    reveal_strlit("com.apple.keylayout.Slovak-QWERTY");
    assert("com.apple.keylayout.Slovak-QWERTY"@.len() == 33);
    reveal_strlit("com.apple.keylayout.Slovak");
    assert("com.apple.keylayout.Slovak"@.len() == 26);
    reveal_strlit("com.apple.keylayout.Polish");
    assert("com.apple.keylayout.Polish"@.len() == 26);
    reveal_strlit("com.apple.keylayout.Lithuanian");
    assert("com.apple.keylayout.Lithuanian"@.len() == 30);
    reveal_strlit("com.apple.keylayout.Hungarian");
    assert("com.apple.keylayout.Hungarian"@.len() == 29);
    reveal_strlit("com.apple.keylayout.Hungarian-QWERTY");
    assert("com.apple.keylayout.Hungarian-QWERTY"@.len() == 36);
    reveal_strlit("com.apple.keylayout.Czech-QWERTY");
    assert("com.apple.keylayout.Czech-QWERTY"@.len() == 32);
    reveal_strlit("com.apple.keylayout.Maltese");
    assert("com.apple.keylayout.Maltese"@.len() == 27);
    reveal_strlit("com.apple.keylayout.Turkish");
    assert("com.apple.keylayout.Turkish"@.len() == 27);
    reveal_strlit("com.apple.keylayout.Turkish-Standard");
    assert("com.apple.keylayout.Turkish-Standard"@.len() == 36);
    reveal_strlit("com.apple.keylayout.NorwegianSami-PC");
    assert("com.apple.keylayout.NorwegianSami-PC"@.len() == 36);
    reveal_strlit("com.apple.keylayout.Serbian-Latin");
    assert("com.apple.keylayout.Serbian-Latin"@.len() == 33);
    reveal_strlit("com.apple.keylayout.Slovenian");
    assert("com.apple.keylayout.Slovenian"@.len() == 29);
    reveal_strlit("com.apple.keylayout.SwedishSami-PC");
    assert("com.apple.keylayout.SwedishSami-PC"@.len() == 34);
}

proof fn lemma_layout_51()
    ensures
        layout_table("com.apple.keylayout.Hawaiian"@) == Some(("'"@, "ʻ"@)),
{
    reveal_strlit("com.apple.keylayout.Hawaiian");
    assert("com.apple.keylayout.Hawaiian"@.len() == 28);
    reveal_strlit("com.apple.keylayout.Welsh");
    assert("com.apple.keylayout.Welsh"@.len() == 25);
    reveal_strlit("com.apple.keylayout.Turkmen");
    assert("com.apple.keylayout.Turkmen"@.len() == 27);
    reveal_strlit("com.apple.keylayout.Turkish-QWERTY-PC");
    assert("com.apple.keylayout.Turkish-QWERTY-PC"@.len() == 37);
    reveal_strlit("com.apple.keylayout.Sami-PC");
    assert("com.apple.keylayout.Sami-PC"@.len() == 27);
    reveal_strlit("com.apple.keylayout.LatinAmerican");
    assert("com.apple.keylayout.LatinAmerican"@.len() == 33);
    reveal_strlit("com.apple.keylayout.IrishExtended");
    assert("com.apple.keylayout.IrishExtended"@.len() == 33);
    reveal_strlit("com.apple.keylayout.Icelandic");
    assert("com.apple.keylayout.Icelandic"@.len() == 29);
    reveal_strlit("com.apple.keylayout.German-DIN-2137");
    assert("com.apple.keylayout.German-DIN-2137"@.len() == 35);
    reveal_strlit("com.apple.keylayout.FinnishSami-PC");
    assert("com.apple.keylayout.FinnishSami-PC"@.len() == 34);
    reveal_strlit("com.apple.keylayout.FinnishExtended");
    assert("com.apple.keylayout.FinnishExtended"@.len() == 35);
    reveal_strlit("com.apple.keylayout.Faroese");
    assert("com.apple.keylayout.Faroese"@.len() == 27);
    reveal_strlit("com.apple.keylayout.Croatian-PC");
    assert("com.apple.keylayout.Croatian-PC"@.len() == 31);
    reveal_strlit("com.apple.keylayout.Croatian");
    assert("com.apple.keylayout.Croatian"@.len() == 28);
    assert("com.apple.keylayout.Hawaiian"@[20] != "com.apple.keylayout.Croatian"@[20]);
    reveal_strlit("com.apple.keylayout.Azeri");
    assert("com.apple.keylayout.Azeri"@.len() == 25);
    reveal_strlit("com.apple.keylayout.Albanian");
    assert("com.apple.keylayout.Albanian"@.len() == 28);
    assert("com.apple.keylayout.Hawaiian"@[20] != "com.apple.keylayout.Albanian"@[20]);
    reveal_strlit("com.apple.keylayout.SwissFrench");
    assert("com.apple.keylayout.SwissFrench"@.len() == 31);
    reveal_strlit("com.apple.keylayout.Swedish");
    assert("com.apple.keylayout.Swedish"@.len() == 27);
    reveal_strlit("com.apple.keylayout.Swedish-Pro");
    assert("com.apple.keylayout.Swedish-Pro"@.len() == 31);
    reveal_strlit("com.apple.keylayout.Spanish");
    assert("com.apple.keylayout.Spanish"@.len() == 27);
    reveal_strlit("com.apple.keylayout.Spanish-ISO");
    assert("com.apple.keylayout.Spanish-ISO"@.len() == 31);
    reveal_strlit("com.apple.keylayout.Portuguese");
    assert("com.apple.keylayout.Portuguese"@.len() == 30);
    reveal_strlit("com.apple.keylayout.Italian");
    assert("com.apple.keylayout.Italian"@.len() == 27);
    reveal_strlit("com.apple.keylayout.Italian-Pro");
    assert("com.apple.keylayout.Italian-Pro"@.len() == 31);
    reveal_strlit("com.apple.keylayout.Irish");
    assert("com.apple.keylayout.Irish"@.len() == 25);
    reveal_strlit("com.apple.keylayout.German");
    assert("com.apple.keylayout.German"@.len() == 26);
    reveal_strlit("com.apple.keylayout.French");
    assert("com.apple.keylayout.French"@.len() == 26);
    reveal_strlit("com.apple.keylayout.French-numerical");
    assert("com.apple.keylayout.French-numerical"@.len() == 36);
    reveal_strlit("com.apple.keylayout.French-PC");
    assert("com.apple.keylayout.French-PC"@.len() == 29);
    reveal_strlit("com.apple.keylayout.Finnish");
    assert("com.apple.keylayout.Finnish"@.len() == 27);
    reveal_strlit("com.apple.keylayout.Danish");
    assert("com.apple.keylayout.Danish"@.len() == 26);
    reveal_strlit("com.apple.keylayout.Canadian-CSA");
    assert("com.apple.keylayout.Canadian-CSA"@.len() == 32);
    reveal_strlit("com.apple.keylayout.British");
    assert("com.apple.keylayout.British"@.len() == 27);
    reveal_strlit("com.apple.keylayout.Brazilian-ABNT2");
    assert("com.apple.keylayout.Brazilian-ABNT2"@.len() == 35);
    reveal_strlit("com.apple.keylayout.Belgian");
    assert("com.apple.keylayout.Belgian"@.len() == 27);
    reveal_strlit("com.apple.keylayout.Austrian");
    assert("com.apple.keylayout.Austrian"@.len() == 28);
    assert("com.apple.keylayout.Hawaiian"@[20] != "com.apple.keylayout.Austrian"@[20]);
    reveal_strlit("com.apple.keylayout.Slovak-QWERTY");
    assert("com.apple.keylayout.Slovak-QWERTY"@.len() == 33);
    reveal_strlit("com.apple.keylayout.Slovak");
    assert("com.apple.keylayout.Slovak"@.len() == 26);
    reveal_strlit("com.apple.keylayout.Polish");
    assert("com.apple.keylayout.Polish"@.len() == 26);
    reveal_strlit("com.apple.keylayout.Lithuanian");
    assert("com.apple.keylayout.Lithuanian"@.len() == 30);
    reveal_strlit("com.apple.keylayout.Hungarian");
    assert("com.apple.keylayout.Hungarian"@.len() == 29);
    reveal_strlit("com.apple.keylayout.Hungarian-QWERTY");
    assert("com.apple.keylayout.Hungarian-QWERTY"@.len() == 36);
    reveal_strlit("com.apple.keylayout.Czech-QWERTY");
    assert("com.apple.keylayout.Czech-QWERTY"@.len() == 32);
    reveal_strlit("com.apple.keylayout.Maltese");
    assert("com.apple.keylayout.Maltese"@.len() == 27);
    reveal_strlit("com.apple.keylayout.Turkish");
    assert("com.apple.keylayout.Turkish"@.len() == 27);
    reveal_strlit("com.apple.keylayout.Turkish-Standard");
    assert("com.apple.keylayout.Turkish-Standard"@.len() == 36);
    reveal_strlit("com.apple.keylayout.NorwegianSami-PC");
    assert("com.apple.keylayout.NorwegianSami-PC"@.len() == 36);
    reveal_strlit("com.apple.keylayout.Serbian-Latin");
    assert("com.apple.keylayout.Serbian-Latin"@.len() == 33);
    reveal_strlit("com.apple.keylayout.Slovenian");
    assert("com.apple.keylayout.Slovenian"@.len() == 29);
    reveal_strlit("com.apple.keylayout.SwedishSami-PC");
    assert("com.apple.keylayout.SwedishSami-PC"@.len() == 34);
    reveal_strlit("com.apple.keylayout.SwissGerman");
    assert("com.apple.keylayout.SwissGerman"@.len() == 31);
}

proof fn lemma_layout_52()
    ensures
        layout_table("com.apple.keylayout.NorthernSami"@) == Some((":/[<{X\"wQx\\(;~>W}`*@])'^|=q&"@, "Å´ø;ØČŊšÁčđ)åŽ:ŠÆž(\"æ=ŋ&Đ`á/"@)),
{
    reveal_strlit("com.apple.keylayout.NorthernSami");
    assert("com.apple.keylayout.NorthernSami"@.len() == 32);
    reveal_strlit("com.apple.keylayout.Welsh");
    assert("com.apple.keylayout.Welsh"@.len() == 25);
    reveal_strlit("com.apple.keylayout.Turkmen");
    assert("com.apple.keylayout.Turkmen"@.len() == 27);
    reveal_strlit("com.apple.keylayout.Turkish-QWERTY-PC");
    assert("com.apple.keylayout.Turkish-QWERTY-PC"@.len() == 37);
    reveal_strlit("com.apple.keylayout.Sami-PC");
    assert("com.apple.keylayout.Sami-PC"@.len() == 27);
    reveal_strlit("com.apple.keylayout.LatinAmerican");
    assert("com.apple.keylayout.LatinAmerican"@.len() == 33);
    reveal_strlit("com.apple.keylayout.IrishExtended");
    assert("com.apple.keylayout.IrishExtended"@.len() == 33);
    reveal_strlit("com.apple.keylayout.Icelandic");
    assert("com.apple.keylayout.Icelandic"@.len() == 29);
    reveal_strlit("com.apple.keylayout.German-DIN-2137");
    assert("com.apple.keylayout.German-DIN-2137"@.len() == 35);
    reveal_strlit("com.apple.keylayout.FinnishSami-PC");
    assert("com.apple.keylayout.FinnishSami-PC"@.len() == 34);
    reveal_strlit("com.apple.keylayout.FinnishExtended");
    assert("com.apple.keylayout.FinnishExtended"@.len() == 35);
    reveal_strlit("com.apple.keylayout.Faroese");
    assert("com.apple.keylayout.Faroese"@.len() == 27);
    reveal_strlit("com.apple.keylayout.Croatian-PC");
    assert("com.apple.keylayout.Croatian-PC"@.len() == 31);
    reveal_strlit("com.apple.keylayout.Croatian");
    assert("com.apple.keylayout.Croatian"@.len() == 28);
    reveal_strlit("com.apple.keylayout.Azeri");
    assert("com.apple.keylayout.Azeri"@.len() == 25);
    reveal_strlit("com.apple.keylayout.Albanian");
    assert("com.apple.keylayout.Albanian"@.len() == 28);
    reveal_strlit("com.apple.keylayout.SwissFrench");
    assert("com.apple.keylayout.SwissFrench"@.len() == 31);
    reveal_strlit("com.apple.keylayout.Swedish");
    assert("com.apple.keylayout.Swedish"@.len() == 27);
    reveal_strlit("com.apple.keylayout.Swedish-Pro");
    assert("com.apple.keylayout.Swedish-Pro"@.len() == 31);
    reveal_strlit("com.apple.keylayout.Spanish");
    assert("com.apple.keylayout.Spanish"@.len() == 27);
    reveal_strlit("com.apple.keylayout.Spanish-ISO");
    assert("com.apple.keylayout.Spanish-ISO"@.len() == 31);
    reveal_strlit("com.apple.keylayout.Portuguese");
    assert("com.apple.keylayout.Portuguese"@.len() == 30);
    reveal_strlit("com.apple.keylayout.Italian");
    assert("com.apple.keylayout.Italian"@.len() == 27);
    reveal_strlit("com.apple.keylayout.Italian-Pro");
    assert("com.apple.keylayout.Italian-Pro"@.len() == 31);
    reveal_strlit("com.apple.keylayout.Irish");
    assert("com.apple.keylayout.Irish"@.len() == 25);
    reveal_strlit("com.apple.keylayout.German");
    assert("com.apple.keylayout.German"@.len() == 26);
    reveal_strlit("com.apple.keylayout.French");
    assert("com.apple.keylayout.French"@.len() == 26);
    reveal_strlit("com.apple.keylayout.French-numerical");
    assert("com.apple.keylayout.French-numerical"@.len() == 36);
    reveal_strlit("com.apple.keylayout.French-PC");
    assert("com.apple.keylayout.French-PC"@.len() == 29);
    reveal_strlit("com.apple.keylayout.Finnish");
    assert("com.apple.keylayout.Finnish"@.len() == 27);
    reveal_strlit("com.apple.keylayout.Danish");
    assert("com.apple.keylayout.Danish"@.len() == 26);
    reveal_strlit("com.apple.keylayout.Canadian-CSA");
    assert("com.apple.keylayout.Canadian-CSA"@.len() == 32);
    assert("com.apple.keylayout.NorthernSami"@[20] != "com.apple.keylayout.Canadian-CSA"@[20]);
    reveal_strlit("com.apple.keylayout.British");
    assert("com.apple.keylayout.British"@.len() == 27);
    reveal_strlit("com.apple.keylayout.Brazilian-ABNT2");
    assert("com.apple.keylayout.Brazilian-ABNT2"@.len() == 35);
    reveal_strlit("com.apple.keylayout.Belgian");
    assert("com.apple.keylayout.Belgian"@.len() == 27);
    reveal_strlit("com.apple.keylayout.Austrian");
    assert("com.apple.keylayout.Austrian"@.len() == 28);
    reveal_strlit("com.apple.keylayout.Slovak-QWERTY");
    assert("com.apple.keylayout.Slovak-QWERTY"@.len() == 33);
    reveal_strlit("com.apple.keylayout.Slovak");
    assert("com.apple.keylayout.Slovak"@.len() == 26);
    reveal_strlit("com.apple.keylayout.Polish");
    assert("com.apple.keylayout.Polish"@.len() == 26);
    reveal_strlit("com.apple.keylayout.Lithuanian");
    assert("com.apple.keylayout.Lithuanian"@.len() == 30);
    reveal_strlit("com.apple.keylayout.Hungarian");
    assert("com.apple.keylayout.Hungarian"@.len() == 29);
    reveal_strlit("com.apple.keylayout.Hungarian-QWERTY");
    assert("com.apple.keylayout.Hungarian-QWERTY"@.len() == 36);
    reveal_strlit("com.apple.keylayout.Czech-QWERTY");
    assert("com.apple.keylayout.Czech-QWERTY"@.len() == 32);
    assert("com.apple.keylayout.NorthernSami"@[20] != "com.apple.keylayout.Czech-QWERTY"@[20]);
    reveal_strlit("com.apple.keylayout.Maltese");
    assert("com.apple.keylayout.Maltese"@.len() == 27);
    reveal_strlit("com.apple.keylayout.Turkish");
    assert("com.apple.keylayout.Turkish"@.len() == 27);
    reveal_strlit("com.apple.keylayout.Turkish-Standard");
    assert("com.apple.keylayout.Turkish-Standard"@.len() == 36);
    reveal_strlit("com.apple.keylayout.NorwegianSami-PC");
    assert("com.apple.keylayout.NorwegianSami-PC"@.len() == 36);
    reveal_strlit("com.apple.keylayout.Serbian-Latin");
    assert("com.apple.keylayout.Serbian-Latin"@.len() == 33);
    reveal_strlit("com.apple.keylayout.Slovenian");
    assert("com.apple.keylayout.Slovenian"@.len() == 29);
    reveal_strlit("com.apple.keylayout.SwedishSami-PC");
    assert("com.apple.keylayout.SwedishSami-PC"@.len() == 34);
    reveal_strlit("com.apple.keylayout.SwissGerman");
    assert("com.apple.keylayout.SwissGerman"@.len() == 31);
    reveal_strlit("com.apple.keylayout.Hawaiian");
    assert("com.apple.keylayout.Hawaiian"@.len() == 28);
}

proof fn lemma_layout_53()
    ensures
        layout_table("com.apple.keylayout.USInternational-PC"@) == Some(("^~"@, "ˆ˜"@)),
{
    reveal_strlit("com.apple.keylayout.USInternational-PC");
    assert("com.apple.keylayout.USInternational-PC"@.len() == 38);
    reveal_strlit("com.apple.keylayout.Welsh");
    assert("com.apple.keylayout.Welsh"@.len() == 25);
    reveal_strlit("com.apple.keylayout.Turkmen");
    assert("com.apple.keylayout.Turkmen"@.len() == 27);
    reveal_strlit("com.apple.keylayout.Turkish-QWERTY-PC");
    assert("com.apple.keylayout.Turkish-QWERTY-PC"@.len() == 37);
    reveal_strlit("com.apple.keylayout.Sami-PC");
    assert("com.apple.keylayout.Sami-PC"@.len() == 27);
    reveal_strlit("com.apple.keylayout.LatinAmerican");
    assert("com.apple.keylayout.LatinAmerican"@.len() == 33);
    reveal_strlit("com.apple.keylayout.IrishExtended");
    assert("com.apple.keylayout.IrishExtended"@.len() == 33);
    reveal_strlit("com.apple.keylayout.Icelandic");
    assert("com.apple.keylayout.Icelandic"@.len() == 29);
    reveal_strlit("com.apple.keylayout.German-DIN-2137");
    assert("com.apple.keylayout.German-DIN-2137"@.len() == 35);
    reveal_strlit("com.apple.keylayout.FinnishSami-PC");
    assert("com.apple.keylayout.FinnishSami-PC"@.len() == 34);
    reveal_strlit("com.apple.keylayout.FinnishExtended");
    assert("com.apple.keylayout.FinnishExtended"@.len() == 35);
    reveal_strlit("com.apple.keylayout.Faroese");
    assert("com.apple.keylayout.Faroese"@.len() == 27);
    reveal_strlit("com.apple.keylayout.Croatian-PC");
    assert("com.apple.keylayout.Croatian-PC"@.len() == 31);
    reveal_strlit("com.apple.keylayout.Croatian");
    assert("com.apple.keylayout.Croatian"@.len() == 28);
    reveal_strlit("com.apple.keylayout.Azeri");
    assert("com.apple.keylayout.Azeri"@.len() == 25);
    reveal_strlit("com.apple.keylayout.Albanian");
    assert("com.apple.keylayout.Albanian"@.len() == 28);
    reveal_strlit("com.apple.keylayout.SwissFrench");
    assert("com.apple.keylayout.SwissFrench"@.len() == 31);
    reveal_strlit("com.apple.keylayout.Swedish");
    assert("com.apple.keylayout.Swedish"@.len() == 27);
    reveal_strlit("com.apple.keylayout.Swedish-Pro");
    assert("com.apple.keylayout.Swedish-Pro"@.len() == 31);
    reveal_strlit("com.apple.keylayout.Spanish");
    assert("com.apple.keylayout.Spanish"@.len() == 27);
    reveal_strlit("com.apple.keylayout.Spanish-ISO");
    assert("com.apple.keylayout.Spanish-ISO"@.len() == 31);
    reveal_strlit("com.apple.keylayout.Portuguese");
    assert("com.apple.keylayout.Portuguese"@.len() == 30);
    reveal_strlit("com.apple.keylayout.Italian");
    assert("com.apple.keylayout.Italian"@.len() == 27);
    reveal_strlit("com.apple.keylayout.Italian-Pro");
    assert("com.apple.keylayout.Italian-Pro"@.len() == 31);
    reveal_strlit("com.apple.keylayout.Irish");
    assert("com.apple.keylayout.Irish"@.len() == 25);
    reveal_strlit("com.apple.keylayout.German");
    assert("com.apple.keylayout.German"@.len() == 26);
    reveal_strlit("com.apple.keylayout.French");
    assert("com.apple.keylayout.French"@.len() == 26);
    reveal_strlit("com.apple.keylayout.French-numerical");
    assert("com.apple.keylayout.French-numerical"@.len() == 36);
    reveal_strlit("com.apple.keylayout.French-PC");
    assert("com.apple.keylayout.French-PC"@.len() == 29);
    reveal_strlit("com.apple.keylayout.Finnish");
    assert("com.apple.keylayout.Finnish"@.len() == 27);
    reveal_strlit("com.apple.keylayout.Danish");
    assert("com.apple.keylayout.Danish"@.len() == 26);
    reveal_strlit("com.apple.keylayout.Canadian-CSA");
    assert("com.apple.keylayout.Canadian-CSA"@.len() == 32);
    reveal_strlit("com.apple.keylayout.British");
    assert("com.apple.keylayout.British"@.len() == 27);
    reveal_strlit("com.apple.keylayout.Brazilian-ABNT2");
    assert("com.apple.keylayout.Brazilian-ABNT2"@.len() == 35);
    reveal_strlit("com.apple.keylayout.Belgian");
    assert("com.apple.keylayout.Belgian"@.len() == 27);
    reveal_strlit("com.apple.keylayout.Austrian");
    assert("com.apple.keylayout.Austrian"@.len() == 28);
    reveal_strlit("com.apple.keylayout.Slovak-QWERTY");
    assert("com.apple.keylayout.Slovak-QWERTY"@.len() == 33);
    reveal_strlit("com.apple.keylayout.Slovak");
    assert("com.apple.keylayout.Slovak"@.len() == 26);
    reveal_strlit("com.apple.keylayout.Polish");
    assert("com.apple.keylayout.Polish"@.len() == 26);
    reveal_strlit("com.apple.keylayout.Lithuanian");
    assert("com.apple.keylayout.Lithuanian"@.len() == 30);
    reveal_strlit("com.apple.keylayout.Hungarian");
    assert("com.apple.keylayout.Hungarian"@.len() == 29);
    reveal_strlit("com.apple.keylayout.Hungarian-QWERTY");
    assert("com.apple.keylayout.Hungarian-QWERTY"@.len() == 36);
    reveal_strlit("com.apple.keylayout.Czech-QWERTY");
    assert("com.apple.keylayout.Czech-QWERTY"@.len() == 32);
    reveal_strlit("com.apple.keylayout.Maltese");
    assert("com.apple.keylayout.Maltese"@.len() == 27);
    reveal_strlit("com.apple.keylayout.Turkish");
    assert("com.apple.keylayout.Turkish"@.len() == 27);
    reveal_strlit("com.apple.keylayout.Turkish-Standard");
    assert("com.apple.keylayout.Turkish-Standard"@.len() == 36);
    reveal_strlit("com.apple.keylayout.NorwegianSami-PC");
    assert("com.apple.keylayout.NorwegianSami-PC"@.len() == 36);
    reveal_strlit("com.apple.keylayout.Serbian-Latin");
    assert("com.apple.keylayout.Serbian-Latin"@.len() == 33);
    reveal_strlit("com.apple.keylayout.Slovenian");
    assert("com.apple.keylayout.Slovenian"@.len() == 29);
    reveal_strlit("com.apple.keylayout.SwedishSami-PC");
    assert("com.apple.keylayout.SwedishSami-PC"@.len() == 34);
    reveal_strlit("com.apple.keylayout.SwissGerman");
    assert("com.apple.keylayout.SwissGerman"@.len() == 31);
    reveal_strlit("com.apple.keylayout.Hawaiian");
    assert("com.apple.keylayout.Hawaiian"@.len() == 28);
    reveal_strlit("com.apple.keylayout.NorthernSami");
    assert("com.apple.keylayout.NorthernSami"@.len() == 32);
}

proof fn lemma_layout_54()
    ensures
        layout_table("com.apple.keylayout.NorwegianExtended"@) == Some(("^~"@, "ˆ˜"@)),
{
    reveal_strlit("com.apple.keylayout.NorwegianExtended");
    assert("com.apple.keylayout.NorwegianExtended"@.len() == 37);
    reveal_strlit("com.apple.keylayout.Welsh");
    assert("com.apple.keylayout.Welsh"@.len() == 25);
    reveal_strlit("com.apple.keylayout.Turkmen");
    assert("com.apple.keylayout.Turkmen"@.len() == 27);
    reveal_strlit("com.apple.keylayout.Turkish-QWERTY-PC");
    assert("com.apple.keylayout.Turkish-QWERTY-PC"@.len() == 37);
    assert("com.apple.keylayout.NorwegianExtended"@[20] != "com.apple.keylayout.Turkish-QWERTY-PC"@[20]);
    reveal_strlit("com.apple.keylayout.Sami-PC");
    assert("com.apple.keylayout.Sami-PC"@.len() == 27);
    reveal_strlit("com.apple.keylayout.LatinAmerican");
    assert("com.apple.keylayout.LatinAmerican"@.len() == 33);
    reveal_strlit("com.apple.keylayout.IrishExtended");
    assert("com.apple.keylayout.IrishExtended"@.len() == 33);
    reveal_strlit("com.apple.keylayout.Icelandic");
    assert("com.apple.keylayout.Icelandic"@.len() == 29);
    reveal_strlit("com.apple.keylayout.German-DIN-2137");
    assert("com.apple.keylayout.German-DIN-2137"@.len() == 35);
    reveal_strlit("com.apple.keylayout.FinnishSami-PC");
    assert("com.apple.keylayout.FinnishSami-PC"@.len() == 34);
    reveal_strlit("com.apple.keylayout.FinnishExtended");
    assert("com.apple.keylayout.FinnishExtended"@.len() == 35);
    reveal_strlit("com.apple.keylayout.Faroese");
    assert("com.apple.keylayout.Faroese"@.len() == 27);
    reveal_strlit("com.apple.keylayout.Croatian-PC");
    assert("com.apple.keylayout.Croatian-PC"@.len() == 31);
    reveal_strlit("com.apple.keylayout.Croatian");
    assert("com.apple.keylayout.Croatian"@.len() == 28);
    reveal_strlit("com.apple.keylayout.Azeri");
    assert("com.apple.keylayout.Azeri"@.len() == 25);
    reveal_strlit("com.apple.keylayout.Albanian");
    assert("com.apple.keylayout.Albanian"@.len() == 28);
    reveal_strlit("com.apple.keylayout.SwissFrench");
    assert("com.apple.keylayout.SwissFrench"@.len() == 31);
    reveal_strlit("com.apple.keylayout.Swedish");
    assert("com.apple.keylayout.Swedish"@.len() == 27);
    reveal_strlit("com.apple.keylayout.Swedish-Pro");
    assert("com.apple.keylayout.Swedish-Pro"@.len() == 31);
    reveal_strlit("com.apple.keylayout.Spanish");
    assert("com.apple.keylayout.Spanish"@.len() == 27);
    reveal_strlit("com.apple.keylayout.Spanish-ISO");
    assert("com.apple.keylayout.Spanish-ISO"@.len() == 31);
    reveal_strlit("com.apple.keylayout.Portuguese");
    assert("com.apple.keylayout.Portuguese"@.len() == 30);
    reveal_strlit("com.apple.keylayout.Italian");
    assert("com.apple.keylayout.Italian"@.len() == 27);
    reveal_strlit("com.apple.keylayout.Italian-Pro");
    assert("com.apple.keylayout.Italian-Pro"@.len() == 31);
    reveal_strlit("com.apple.keylayout.Irish");
    assert("com.apple.keylayout.Irish"@.len() == 25);
    reveal_strlit("com.apple.keylayout.German");
    assert("com.apple.keylayout.German"@.len() == 26);
    reveal_strlit("com.apple.keylayout.French");
    assert("com.apple.keylayout.French"@.len() == 26);
    reveal_strlit("com.apple.keylayout.French-numerical");
    assert("com.apple.keylayout.French-numerical"@.len() == 36);
    reveal_strlit("com.apple.keylayout.French-PC");
    assert("com.apple.keylayout.French-PC"@.len() == 29);
    reveal_strlit("com.apple.keylayout.Finnish");
    assert("com.apple.keylayout.Finnish"@.len() == 27);
    reveal_strlit("com.apple.keylayout.Danish");
    assert("com.apple.keylayout.Danish"@.len() == 26);
    reveal_strlit("com.apple.keylayout.Canadian-CSA");
    assert("com.apple.keylayout.Canadian-CSA"@.len() == 32);
    reveal_strlit("com.apple.keylayout.British");
    assert("com.apple.keylayout.British"@.len() == 27);
    reveal_strlit("com.apple.keylayout.Brazilian-ABNT2");
    assert("com.apple.keylayout.Brazilian-ABNT2"@.len() == 35);
    reveal_strlit("com.apple.keylayout.Belgian");
    assert("com.apple.keylayout.Belgian"@.len() == 27);
    reveal_strlit("com.apple.keylayout.Austrian");
    assert("com.apple.keylayout.Austrian"@.len() == 28);
    reveal_strlit("com.apple.keylayout.Slovak-QWERTY");
    assert("com.apple.keylayout.Slovak-QWERTY"@.len() == 33);
    reveal_strlit("com.apple.keylayout.Slovak");
    assert("com.apple.keylayout.Slovak"@.len() == 26);
    reveal_strlit("com.apple.keylayout.Polish");
    assert("com.apple.keylayout.Polish"@.len() == 26);
    reveal_strlit("com.apple.keylayout.Lithuanian");
    assert("com.apple.keylayout.Lithuanian"@.len() == 30);
    reveal_strlit("com.apple.keylayout.Hungarian");
    assert("com.apple.keylayout.Hungarian"@.len() == 29);
    reveal_strlit("com.apple.keylayout.Hungarian-QWERTY");
    assert("com.apple.keylayout.Hungarian-QWERTY"@.len() == 36);
    reveal_strlit("com.apple.keylayout.Czech-QWERTY");
    assert("com.apple.keylayout.Czech-QWERTY"@.len() == 32);
    reveal_strlit("com.apple.keylayout.Maltese");
    assert("com.apple.keylayout.Maltese"@.len() == 27);
    reveal_strlit("com.apple.keylayout.Turkish");
    assert("com.apple.keylayout.Turkish"@.len() == 27);
    reveal_strlit("com.apple.keylayout.Turkish-Standard");
    assert("com.apple.keylayout.Turkish-Standard"@.len() == 36);
    reveal_strlit("com.apple.keylayout.NorwegianSami-PC");
    assert("com.apple.keylayout.NorwegianSami-PC"@.len() == 36);
    reveal_strlit("com.apple.keylayout.Serbian-Latin");
    assert("com.apple.keylayout.Serbian-Latin"@.len() == 33);
    reveal_strlit("com.apple.keylayout.Slovenian");
    assert("com.apple.keylayout.Slovenian"@.len() == 29);
    reveal_strlit("com.apple.keylayout.SwedishSami-PC");
    assert("com.apple.keylayout.SwedishSami-PC"@.len() == 34);
    reveal_strlit("com.apple.keylayout.SwissGerman");
    assert("com.apple.keylayout.SwissGerman"@.len() == 31);
    reveal_strlit("com.apple.keylayout.Hawaiian");
    assert("com.apple.keylayout.Hawaiian"@.len() == 28);
    reveal_strlit("com.apple.keylayout.NorthernSami");
    assert("com.apple.keylayout.NorthernSami"@.len() == 32);
    reveal_strlit("com.apple.keylayout.USInternational-PC");
    assert("com.apple.keylayout.USInternational-PC"@.len() == 38);
}

proof fn lemma_layout_55()
    ensures
        layout_table("com.apple.keylayout.Norwegian"@) == Some(("`'~\"\\*|=/@)[:}&><]{(^;"@, "<¨>^@(*`´\"=øÅÆ/:;æØ)&å"@)),
{
    reveal_strlit("com.apple.keylayout.Norwegian");
    assert("com.apple.keylayout.Norwegian"@.len() == 29);
    reveal_strlit("com.apple.keylayout.Welsh");
    assert("com.apple.keylayout.Welsh"@.len() == 25);
    reveal_strlit("com.apple.keylayout.Turkmen");
    assert("com.apple.keylayout.Turkmen"@.len() == 27);
    reveal_strlit("com.apple.keylayout.Turkish-QWERTY-PC");
    assert("com.apple.keylayout.Turkish-QWERTY-PC"@.len() == 37);
    reveal_strlit("com.apple.keylayout.Sami-PC");
    assert("com.apple.keylayout.Sami-PC"@.len() == 27);
    reveal_strlit("com.apple.keylayout.LatinAmerican");
    assert("com.apple.keylayout.LatinAmerican"@.len() == 33);
    reveal_strlit("com.apple.keylayout.IrishExtended");
    assert("com.apple.keylayout.IrishExtended"@.len() == 33);
    reveal_strlit("com.apple.keylayout.Icelandic");
    assert("com.apple.keylayout.Icelandic"@.len() == 29);
    assert("com.apple.keylayout.Norwegian"@[20] != "com.apple.keylayout.Icelandic"@[20]);
    reveal_strlit("com.apple.keylayout.German-DIN-2137");
    assert("com.apple.keylayout.German-DIN-2137"@.len() == 35);
    reveal_strlit("com.apple.keylayout.FinnishSami-PC");
    assert("com.apple.keylayout.FinnishSami-PC"@.len() == 34);
    reveal_strlit("com.apple.keylayout.FinnishExtended");
    assert("com.apple.keylayout.FinnishExtended"@.len() == 35);
    reveal_strlit("com.apple.keylayout.Faroese");
    assert("com.apple.keylayout.Faroese"@.len() == 27);
    reveal_strlit("com.apple.keylayout.Croatian-PC");
    assert("com.apple.keylayout.Croatian-PC"@.len() == 31);
    reveal_strlit("com.apple.keylayout.Croatian");
    assert("com.apple.keylayout.Croatian"@.len() == 28);
    reveal_strlit("com.apple.keylayout.Azeri");
    assert("com.apple.keylayout.Azeri"@.len() == 25);
    reveal_strlit("com.apple.keylayout.Albanian");
    assert("com.apple.keylayout.Albanian"@.len() == 28);
    reveal_strlit("com.apple.keylayout.SwissFrench");
    assert("com.apple.keylayout.SwissFrench"@.len() == 31);
    reveal_strlit("com.apple.keylayout.Swedish");
    assert("com.apple.keylayout.Swedish"@.len() == 27);
    reveal_strlit("com.apple.keylayout.Swedish-Pro");
    assert("com.apple.keylayout.Swedish-Pro"@.len() == 31);
    reveal_strlit("com.apple.keylayout.Spanish");
    assert("com.apple.keylayout.Spanish"@.len() == 27);
    reveal_strlit("com.apple.keylayout.Spanish-ISO");
    assert("com.apple.keylayout.Spanish-ISO"@.len() == 31);
    reveal_strlit("com.apple.keylayout.Portuguese");
    assert("com.apple.keylayout.Portuguese"@.len() == 30);
    reveal_strlit("com.apple.keylayout.Italian");
    assert("com.apple.keylayout.Italian"@.len() == 27);
    reveal_strlit("com.apple.keylayout.Italian-Pro");
    assert("com.apple.keylayout.Italian-Pro"@.len() == 31);
    reveal_strlit("com.apple.keylayout.Irish");
    assert("com.apple.keylayout.Irish"@.len() == 25);
    reveal_strlit("com.apple.keylayout.German");
    assert("com.apple.keylayout.German"@.len() == 26);
    reveal_strlit("com.apple.keylayout.French");
    assert("com.apple.keylayout.French"@.len() == 26);
    reveal_strlit("com.apple.keylayout.French-numerical");
    assert("com.apple.keylayout.French-numerical"@.len() == 36);
    reveal_strlit("com.apple.keylayout.French-PC");
    assert("com.apple.keylayout.French-PC"@.len() == 29);
    assert("com.apple.keylayout.Norwegian"@[20] != "com.apple.keylayout.French-PC"@[20]);
    reveal_strlit("com.apple.keylayout.Finnish");
    assert("com.apple.keylayout.Finnish"@.len() == 27);
    reveal_strlit("com.apple.keylayout.Danish");
    assert("com.apple.keylayout.Danish"@.len() == 26);
    reveal_strlit("com.apple.keylayout.Canadian-CSA");
    assert("com.apple.keylayout.Canadian-CSA"@.len() == 32);
    reveal_strlit("com.apple.keylayout.British");
    assert("com.apple.keylayout.British"@.len() == 27);
    reveal_strlit("com.apple.keylayout.Brazilian-ABNT2");
    assert("com.apple.keylayout.Brazilian-ABNT2"@.len() == 35);
    reveal_strlit("com.apple.keylayout.Belgian");
    assert("com.apple.keylayout.Belgian"@.len() == 27);
    reveal_strlit("com.apple.keylayout.Austrian");
    assert("com.apple.keylayout.Austrian"@.len() == 28);
    reveal_strlit("com.apple.keylayout.Slovak-QWERTY");
    assert("com.apple.keylayout.Slovak-QWERTY"@.len() == 33);
    reveal_strlit("com.apple.keylayout.Slovak");
    assert("com.apple.keylayout.Slovak"@.len() == 26);
    reveal_strlit("com.apple.keylayout.Polish");
    assert("com.apple.keylayout.Polish"@.len() == 26);
    reveal_strlit("com.apple.keylayout.Lithuanian");
    assert("com.apple.keylayout.Lithuanian"@.len() == 30);
    reveal_strlit("com.apple.keylayout.Hungarian");
    assert("com.apple.keylayout.Hungarian"@.len() == 29);
    assert("com.apple.keylayout.Norwegian"@[20] != "com.apple.keylayout.Hungarian"@[20]);
    reveal_strlit("com.apple.keylayout.Hungarian-QWERTY");
    assert("com.apple.keylayout.Hungarian-QWERTY"@.len() == 36);
    reveal_strlit("com.apple.keylayout.Czech-QWERTY");
    assert("com.apple.keylayout.Czech-QWERTY"@.len() == 32);
    reveal_strlit("com.apple.keylayout.Maltese");
    assert("com.apple.keylayout.Maltese"@.len() == 27);
    reveal_strlit("com.apple.keylayout.Turkish");
    assert("com.apple.keylayout.Turkish"@.len() == 27);
    reveal_strlit("com.apple.keylayout.Turkish-Standard");
    assert("com.apple.keylayout.Turkish-Standard"@.len() == 36);
    reveal_strlit("com.apple.keylayout.NorwegianSami-PC");
    assert("com.apple.keylayout.NorwegianSami-PC"@.len() == 36);
    reveal_strlit("com.apple.keylayout.Serbian-Latin");
    assert("com.apple.keylayout.Serbian-Latin"@.len() == 33);
    reveal_strlit("com.apple.keylayout.Slovenian");
    assert("com.apple.keylayout.Slovenian"@.len() == 29);
    assert("com.apple.keylayout.Norwegian"@[20] != "com.apple.keylayout.Slovenian"@[20]);
    reveal_strlit("com.apple.keylayout.SwedishSami-PC");
    assert("com.apple.keylayout.SwedishSami-PC"@.len() == 34);
    reveal_strlit("com.apple.keylayout.SwissGerman");
    assert("com.apple.keylayout.SwissGerman"@.len() == 31);
    reveal_strlit("com.apple.keylayout.Hawaiian");
    assert("com.apple.keylayout.Hawaiian"@.len() == 28);
    reveal_strlit("com.apple.keylayout.NorthernSami");
    assert("com.apple.keylayout.NorthernSami"@.len() == 32);
    reveal_strlit("com.apple.keylayout.USInternational-PC");
    assert("com.apple.keylayout.USInternational-PC"@.len() == 38);
    reveal_strlit("com.apple.keylayout.NorwegianExtended");
    assert("com.apple.keylayout.NorwegianExtended"@.len() == 37);
}

proof fn lemma_layout_56()
    ensures
        layout_table("com.apple.keylayout.ABC-QWERTZ"@) == Some(("\"}~<`>'&#:{@*^|\\)=(]/;["@, "`Ä>;<:´/§ÜÖ\"(&'#=*)äßüö"@)),
{
    reveal_strlit("com.apple.keylayout.ABC-QWERTZ");
    assert("com.apple.keylayout.ABC-QWERTZ"@.len() == 30);
    reveal_strlit("com.apple.keylayout.Welsh");
    assert("com.apple.keylayout.Welsh"@.len() == 25);
    reveal_strlit("com.apple.keylayout.Turkmen");
    assert("com.apple.keylayout.Turkmen"@.len() == 27);
    reveal_strlit("com.apple.keylayout.Turkish-QWERTY-PC");
    assert("com.apple.keylayout.Turkish-QWERTY-PC"@.len() == 37);
    reveal_strlit("com.apple.keylayout.Sami-PC");
    assert("com.apple.keylayout.Sami-PC"@.len() == 27);
    reveal_strlit("com.apple.keylayout.LatinAmerican");
    assert("com.apple.keylayout.LatinAmerican"@.len() == 33);
    reveal_strlit("com.apple.keylayout.IrishExtended");
    assert("com.apple.keylayout.IrishExtended"@.len() == 33);
    reveal_strlit("com.apple.keylayout.Icelandic");
    assert("com.apple.keylayout.Icelandic"@.len() == 29);
    reveal_strlit("com.apple.keylayout.German-DIN-2137");
    assert("com.apple.keylayout.German-DIN-2137"@.len() == 35);
    reveal_strlit("com.apple.keylayout.FinnishSami-PC");
    assert("com.apple.keylayout.FinnishSami-PC"@.len() == 34);
    reveal_strlit("com.apple.keylayout.FinnishExtended");
    assert("com.apple.keylayout.FinnishExtended"@.len() == 35);
    reveal_strlit("com.apple.keylayout.Faroese");
    assert("com.apple.keylayout.Faroese"@.len() == 27);
    reveal_strlit("com.apple.keylayout.Croatian-PC");
    assert("com.apple.keylayout.Croatian-PC"@.len() == 31);
    reveal_strlit("com.apple.keylayout.Croatian");
    assert("com.apple.keylayout.Croatian"@.len() == 28);
    reveal_strlit("com.apple.keylayout.Azeri");
    assert("com.apple.keylayout.Azeri"@.len() == 25);
    reveal_strlit("com.apple.keylayout.Albanian");
    assert("com.apple.keylayout.Albanian"@.len() == 28);
    reveal_strlit("com.apple.keylayout.SwissFrench");
    assert("com.apple.keylayout.SwissFrench"@.len() == 31);
    reveal_strlit("com.apple.keylayout.Swedish");
    assert("com.apple.keylayout.Swedish"@.len() == 27);
    reveal_strlit("com.apple.keylayout.Swedish-Pro");
    assert("com.apple.keylayout.Swedish-Pro"@.len() == 31);
    reveal_strlit("com.apple.keylayout.Spanish");
    assert("com.apple.keylayout.Spanish"@.len() == 27);
    reveal_strlit("com.apple.keylayout.Spanish-ISO");
    assert("com.apple.keylayout.Spanish-ISO"@.len() == 31);
    reveal_strlit("com.apple.keylayout.Portuguese");
    assert("com.apple.keylayout.Portuguese"@.len() == 30);
    assert("com.apple.keylayout.ABC-QWERTZ"@[20] != "com.apple.keylayout.Portuguese"@[20]);
    reveal_strlit("com.apple.keylayout.Italian");
    assert("com.apple.keylayout.Italian"@.len() == 27);
    reveal_strlit("com.apple.keylayout.Italian-Pro");
    assert("com.apple.keylayout.Italian-Pro"@.len() == 31);
    reveal_strlit("com.apple.keylayout.Irish");
    assert("com.apple.keylayout.Irish"@.len() == 25);
    reveal_strlit("com.apple.keylayout.German");
    assert("com.apple.keylayout.German"@.len() == 26);
    reveal_strlit("com.apple.keylayout.French");
    assert("com.apple.keylayout.French"@.len() == 26);
    reveal_strlit("com.apple.keylayout.French-numerical");
    assert("com.apple.keylayout.French-numerical"@.len() == 36);
    reveal_strlit("com.apple.keylayout.French-PC");
    assert("com.apple.keylayout.French-PC"@.len() == 29);
    reveal_strlit("com.apple.keylayout.Finnish");
    assert("com.apple.keylayout.Finnish"@.len() == 27);
    reveal_strlit("com.apple.keylayout.Danish");
    assert("com.apple.keylayout.Danish"@.len() == 26);
    reveal_strlit("com.apple.keylayout.Canadian-CSA");
    assert("com.apple.keylayout.Canadian-CSA"@.len() == 32);
    reveal_strlit("com.apple.keylayout.British");
    assert("com.apple.keylayout.British"@.len() == 27);
    reveal_strlit("com.apple.keylayout.Brazilian-ABNT2");
    assert("com.apple.keylayout.Brazilian-ABNT2"@.len() == 35);
    reveal_strlit("com.apple.keylayout.Belgian");
    assert("com.apple.keylayout.Belgian"@.len() == 27);
    reveal_strlit("com.apple.keylayout.Austrian");
    assert("com.apple.keylayout.Austrian"@.len() == 28);
    reveal_strlit("com.apple.keylayout.Slovak-QWERTY");
    assert("com.apple.keylayout.Slovak-QWERTY"@.len() == 33);
    reveal_strlit("com.apple.keylayout.Slovak");
    assert("com.apple.keylayout.Slovak"@.len() == 26);
    reveal_strlit("com.apple.keylayout.Polish");
    assert("com.apple.keylayout.Polish"@.len() == 26);
    reveal_strlit("com.apple.keylayout.Lithuanian");
    assert("com.apple.keylayout.Lithuanian"@.len() == 30);
    assert("com.apple.keylayout.ABC-QWERTZ"@[20] != "com.apple.keylayout.Lithuanian"@[20]);
    reveal_strlit("com.apple.keylayout.Hungarian");
    assert("com.apple.keylayout.Hungarian"@.len() == 29);
    reveal_strlit("com.apple.keylayout.Hungarian-QWERTY");
    assert("com.apple.keylayout.Hungarian-QWERTY"@.len() == 36);
    reveal_strlit("com.apple.keylayout.Czech-QWERTY");
    assert("com.apple.keylayout.Czech-QWERTY"@.len() == 32);
    reveal_strlit("com.apple.keylayout.Maltese");
    assert("com.apple.keylayout.Maltese"@.len() == 27);
    reveal_strlit("com.apple.keylayout.Turkish");
    assert("com.apple.keylayout.Turkish"@.len() == 27);
    reveal_strlit("com.apple.keylayout.Turkish-Standard");
    assert("com.apple.keylayout.Turkish-Standard"@.len() == 36);
    reveal_strlit("com.apple.keylayout.NorwegianSami-PC");
    assert("com.apple.keylayout.NorwegianSami-PC"@.len() == 36);
    reveal_strlit("com.apple.keylayout.Serbian-Latin");
    assert("com.apple.keylayout.Serbian-Latin"@.len() == 33);
    reveal_strlit("com.apple.keylayout.Slovenian");
    assert("com.apple.keylayout.Slovenian"@.len() == 29);
    reveal_strlit("com.apple.keylayout.SwedishSami-PC");
    assert("com.apple.keylayout.SwedishSami-PC"@.len() == 34);
    reveal_strlit("com.apple.keylayout.SwissGerman");
    assert("com.apple.keylayout.SwissGerman"@.len() == 31);
    reveal_strlit("com.apple.keylayout.Hawaiian");
    assert("com.apple.keylayout.Hawaiian"@.len() == 28);
    reveal_strlit("com.apple.keylayout.NorthernSami");
    assert("com.apple.keylayout.NorthernSami"@.len() == 32);
    reveal_strlit("com.apple.keylayout.USInternational-PC");
    assert("com.apple.keylayout.USInternational-PC"@.len() == 38);
    reveal_strlit("com.apple.keylayout.NorwegianExtended");
    assert("com.apple.keylayout.NorwegianExtended"@.len() == 37);
    reveal_strlit("com.apple.keylayout.Norwegian");
    assert("com.apple.keylayout.Norwegian"@.len() == 29);
}

proof fn lemma_layout_57()
    ensures
        layout_table("com.apple.keylayout.ABC-AZERTY"@) == Some((">[$61%@7|)&8\":}593(.4^<!{`2]\\#;~*/'0"@, "/^4§&52è£07!%°*(ç\"9;'6.1¨<é$`3)>8:ùà"@)),
{
    reveal_strlit("com.apple.keylayout.ABC-AZERTY");
    assert("com.apple.keylayout.ABC-AZERTY"@.len() == 30);
    reveal_strlit("com.apple.keylayout.Welsh");
    assert("com.apple.keylayout.Welsh"@.len() == 25);
    reveal_strlit("com.apple.keylayout.Turkmen");
    assert("com.apple.keylayout.Turkmen"@.len() == 27);
    reveal_strlit("com.apple.keylayout.Turkish-QWERTY-PC");
    assert("com.apple.keylayout.Turkish-QWERTY-PC"@.len() == 37);
    reveal_strlit("com.apple.keylayout.Sami-PC");
    assert("com.apple.keylayout.Sami-PC"@.len() == 27);
    reveal_strlit("com.apple.keylayout.LatinAmerican");
    assert("com.apple.keylayout.LatinAmerican"@.len() == 33);
    reveal_strlit("com.apple.keylayout.IrishExtended");
    assert("com.apple.keylayout.IrishExtended"@.len() == 33);
    reveal_strlit("com.apple.keylayout.Icelandic");
    assert("com.apple.keylayout.Icelandic"@.len() == 29);
    reveal_strlit("com.apple.keylayout.German-DIN-2137");
    assert("com.apple.keylayout.German-DIN-2137"@.len() == 35);
    reveal_strlit("com.apple.keylayout.FinnishSami-PC");
    assert("com.apple.keylayout.FinnishSami-PC"@.len() == 34);
    reveal_strlit("com.apple.keylayout.FinnishExtended");
    assert("com.apple.keylayout.FinnishExtended"@.len() == 35);
    reveal_strlit("com.apple.keylayout.Faroese");
    assert("com.apple.keylayout.Faroese"@.len() == 27);
    reveal_strlit("com.apple.keylayout.Croatian-PC");
    assert("com.apple.keylayout.Croatian-PC"@.len() == 31);
    reveal_strlit("com.apple.keylayout.Croatian");
    assert("com.apple.keylayout.Croatian"@.len() == 28);
    reveal_strlit("com.apple.keylayout.Azeri");
    assert("com.apple.keylayout.Azeri"@.len() == 25);
    reveal_strlit("com.apple.keylayout.Albanian");
    assert("com.apple.keylayout.Albanian"@.len() == 28);
    reveal_strlit("com.apple.keylayout.SwissFrench");
    assert("com.apple.keylayout.SwissFrench"@.len() == 31);
    reveal_strlit("com.apple.keylayout.Swedish");
    assert("com.apple.keylayout.Swedish"@.len() == 27);
    reveal_strlit("com.apple.keylayout.Swedish-Pro");
    assert("com.apple.keylayout.Swedish-Pro"@.len() == 31);
    reveal_strlit("com.apple.keylayout.Spanish");
    assert("com.apple.keylayout.Spanish"@.len() == 27);
    reveal_strlit("com.apple.keylayout.Spanish-ISO");
    assert("com.apple.keylayout.Spanish-ISO"@.len() == 31);
    reveal_strlit("com.apple.keylayout.Portuguese");
    assert("com.apple.keylayout.Portuguese"@.len() == 30);
    assert("com.apple.keylayout.ABC-AZERTY"@[20] != "com.apple.keylayout.Portuguese"@[20]);
    reveal_strlit("com.apple.keylayout.Italian");
    assert("com.apple.keylayout.Italian"@.len() == 27);
    reveal_strlit("com.apple.keylayout.Italian-Pro");
    assert("com.apple.keylayout.Italian-Pro"@.len() == 31);
    reveal_strlit("com.apple.keylayout.Irish");
    assert("com.apple.keylayout.Irish"@.len() == 25);
    reveal_strlit("com.apple.keylayout.German");
    assert("com.apple.keylayout.German"@.len() == 26);
    reveal_strlit("com.apple.keylayout.French");
    assert("com.apple.keylayout.French"@.len() == 26);
    reveal_strlit("com.apple.keylayout.French-numerical");
    assert("com.apple.keylayout.French-numerical"@.len() == 36);
    reveal_strlit("com.apple.keylayout.French-PC");
    assert("com.apple.keylayout.French-PC"@.len() == 29);
    reveal_strlit("com.apple.keylayout.Finnish");
    assert("com.apple.keylayout.Finnish"@.len() == 27);
    reveal_strlit("com.apple.keylayout.Danish");
    assert("com.apple.keylayout.Danish"@.len() == 26);
    reveal_strlit("com.apple.keylayout.Canadian-CSA");
    assert("com.apple.keylayout.Canadian-CSA"@.len() == 32);
    reveal_strlit("com.apple.keylayout.British");
    assert("com.apple.keylayout.British"@.len() == 27);
    reveal_strlit("com.apple.keylayout.Brazilian-ABNT2");
    assert("com.apple.keylayout.Brazilian-ABNT2"@.len() == 35);
    reveal_strlit("com.apple.keylayout.Belgian");
    assert("com.apple.keylayout.Belgian"@.len() == 27);
    reveal_strlit("com.apple.keylayout.Austrian");
    assert("com.apple.keylayout.Austrian"@.len() == 28);
    reveal_strlit("com.apple.keylayout.Slovak-QWERTY");
    assert("com.apple.keylayout.Slovak-QWERTY"@.len() == 33);
    reveal_strlit("com.apple.keylayout.Slovak");
    assert("com.apple.keylayout.Slovak"@.len() == 26);
    reveal_strlit("com.apple.keylayout.Polish");
    assert("com.apple.keylayout.Polish"@.len() == 26);
    reveal_strlit("com.apple.keylayout.Lithuanian");
    assert("com.apple.keylayout.Lithuanian"@.len() == 30);
    assert("com.apple.keylayout.ABC-AZERTY"@[20] != "com.apple.keylayout.Lithuanian"@[20]);
    reveal_strlit("com.apple.keylayout.Hungarian");
    assert("com.apple.keylayout.Hungarian"@.len() == 29);
    reveal_strlit("com.apple.keylayout.Hungarian-QWERTY");
    assert("com.apple.keylayout.Hungarian-QWERTY"@.len() == 36);
    reveal_strlit("com.apple.keylayout.Czech-QWERTY");
    assert("com.apple.keylayout.Czech-QWERTY"@.len() == 32);
    reveal_strlit("com.apple.keylayout.Maltese");
    assert("com.apple.keylayout.Maltese"@.len() == 27);
    reveal_strlit("com.apple.keylayout.Turkish");
    assert("com.apple.keylayout.Turkish"@.len() == 27);
    reveal_strlit("com.apple.keylayout.Turkish-Standard");
    assert("com.apple.keylayout.Turkish-Standard"@.len() == 36);
    reveal_strlit("com.apple.keylayout.NorwegianSami-PC");
    assert("com.apple.keylayout.NorwegianSami-PC"@.len() == 36);
    reveal_strlit("com.apple.keylayout.Serbian-Latin");
    assert("com.apple.keylayout.Serbian-Latin"@.len() == 33);
    reveal_strlit("com.apple.keylayout.Slovenian");
    assert("com.apple.keylayout.Slovenian"@.len() == 29);
    reveal_strlit("com.apple.keylayout.SwedishSami-PC");
    assert("com.apple.keylayout.SwedishSami-PC"@.len() == 34);
    reveal_strlit("com.apple.keylayout.SwissGerman");
    assert("com.apple.keylayout.SwissGerman"@.len() == 31);
    reveal_strlit("com.apple.keylayout.Hawaiian");
    assert("com.apple.keylayout.Hawaiian"@.len() == 28);
    reveal_strlit("com.apple.keylayout.NorthernSami");
    assert("com.apple.keylayout.NorthernSami"@.len() == 32);
    reveal_strlit("com.apple.keylayout.USInternational-PC");
    assert("com.apple.keylayout.USInternational-PC"@.len() == 38);
    reveal_strlit("com.apple.keylayout.NorwegianExtended");
    assert("com.apple.keylayout.NorwegianExtended"@.len() == 37);
    reveal_strlit("com.apple.keylayout.Norwegian");
    assert("com.apple.keylayout.Norwegian"@.len() == 29);
    reveal_strlit("com.apple.keylayout.ABC-QWERTZ");
    assert("com.apple.keylayout.ABC-QWERTZ"@.len() == 30);
    assert("com.apple.keylayout.ABC-AZERTY"@[24] != "com.apple.keylayout.ABC-QWERTZ"@[24]);
}

proof fn lemma_layout_58()
    ensures
        layout_table("com.apple.keylayout.Czech"@) == Some(("(7*#193620?/{)@~!$8+;:%4\">`^]&5}[<'"@, "9ý83+íšžěéˇ'Ú02`14á%ů\"5č!:¨6)7ř(ú?§"@)),
{
    reveal_strlit("com.apple.keylayout.Czech");
    assert("com.apple.keylayout.Czech"@.len() == 25);
    reveal_strlit("com.apple.keylayout.Welsh");
    assert("com.apple.keylayout.Welsh"@.len() == 25);
    assert("com.apple.keylayout.Czech"@[20] != "com.apple.keylayout.Welsh"@[20]);
    reveal_strlit("com.apple.keylayout.Turkmen");
    assert("com.apple.keylayout.Turkmen"@.len() == 27);
    reveal_strlit("com.apple.keylayout.Turkish-QWERTY-PC");
    assert("com.apple.keylayout.Turkish-QWERTY-PC"@.len() == 37);
    reveal_strlit("com.apple.keylayout.Sami-PC");
    assert("com.apple.keylayout.Sami-PC"@.len() == 27);
    reveal_strlit("com.apple.keylayout.LatinAmerican");
    assert("com.apple.keylayout.LatinAmerican"@.len() == 33);
    reveal_strlit("com.apple.keylayout.IrishExtended");
    assert("com.apple.keylayout.IrishExtended"@.len() == 33);
    reveal_strlit("com.apple.keylayout.Icelandic");
    assert("com.apple.keylayout.Icelandic"@.len() == 29);
    reveal_strlit("com.apple.keylayout.German-DIN-2137");
    assert("com.apple.keylayout.German-DIN-2137"@.len() == 35);
    reveal_strlit("com.apple.keylayout.FinnishSami-PC");
    assert("com.apple.keylayout.FinnishSami-PC"@.len() == 34);
    reveal_strlit("com.apple.keylayout.FinnishExtended");
    assert("com.apple.keylayout.FinnishExtended"@.len() == 35);
    reveal_strlit("com.apple.keylayout.Faroese");
    assert("com.apple.keylayout.Faroese"@.len() == 27);
    reveal_strlit("com.apple.keylayout.Croatian-PC");
    assert("com.apple.keylayout.Croatian-PC"@.len() == 31);
    reveal_strlit("com.apple.keylayout.Croatian");
    assert("com.apple.keylayout.Croatian"@.len() == 28);
    reveal_strlit("com.apple.keylayout.Azeri");
    assert("com.apple.keylayout.Azeri"@.len() == 25);
    assert("com.apple.keylayout.Czech"@[20] != "com.apple.keylayout.Azeri"@[20]);
    reveal_strlit("com.apple.keylayout.Albanian");
    assert("com.apple.keylayout.Albanian"@.len() == 28);
    reveal_strlit("com.apple.keylayout.SwissFrench");
    assert("com.apple.keylayout.SwissFrench"@.len() == 31);
    reveal_strlit("com.apple.keylayout.Swedish");
    assert("com.apple.keylayout.Swedish"@.len() == 27);
    reveal_strlit("com.apple.keylayout.Swedish-Pro");
    assert("com.apple.keylayout.Swedish-Pro"@.len() == 31);
    reveal_strlit("com.apple.keylayout.Spanish");
    assert("com.apple.keylayout.Spanish"@.len() == 27);
    reveal_strlit("com.apple.keylayout.Spanish-ISO");
    assert("com.apple.keylayout.Spanish-ISO"@.len() == 31);
    reveal_strlit("com.apple.keylayout.Portuguese");
    assert("com.apple.keylayout.Portuguese"@.len() == 30);
    reveal_strlit("com.apple.keylayout.Italian");
    assert("com.apple.keylayout.Italian"@.len() == 27);
    reveal_strlit("com.apple.keylayout.Italian-Pro");
    assert("com.apple.keylayout.Italian-Pro"@.len() == 31);
    reveal_strlit("com.apple.keylayout.Irish");
    assert("com.apple.keylayout.Irish"@.len() == 25);
    assert("com.apple.keylayout.Czech"@[20] != "com.apple.keylayout.Irish"@[20]);
    reveal_strlit("com.apple.keylayout.German");
    assert("com.apple.keylayout.German"@.len() == 26);
    reveal_strlit("com.apple.keylayout.French");
    assert("com.apple.keylayout.French"@.len() == 26);
    reveal_strlit("com.apple.keylayout.French-numerical");
    assert("com.apple.keylayout.French-numerical"@.len() == 36);
    reveal_strlit("com.apple.keylayout.French-PC");
    assert("com.apple.keylayout.French-PC"@.len() == 29);
    reveal_strlit("com.apple.keylayout.Finnish");
    assert("com.apple.keylayout.Finnish"@.len() == 27);
    reveal_strlit("com.apple.keylayout.Danish");
    assert("com.apple.keylayout.Danish"@.len() == 26);
    reveal_strlit("com.apple.keylayout.Canadian-CSA");
    assert("com.apple.keylayout.Canadian-CSA"@.len() == 32);
    reveal_strlit("com.apple.keylayout.British");
    assert("com.apple.keylayout.British"@.len() == 27);
    reveal_strlit("com.apple.keylayout.Brazilian-ABNT2");
    assert("com.apple.keylayout.Brazilian-ABNT2"@.len() == 35);
    reveal_strlit("com.apple.keylayout.Belgian");
    assert("com.apple.keylayout.Belgian"@.len() == 27);
    reveal_strlit("com.apple.keylayout.Austrian");
    assert("com.apple.keylayout.Austrian"@.len() == 28);
    reveal_strlit("com.apple.keylayout.Slovak-QWERTY");
    assert("com.apple.keylayout.Slovak-QWERTY"@.len() == 33);
    reveal_strlit("com.apple.keylayout.Slovak");
    assert("com.apple.keylayout.Slovak"@.len() == 26);
    reveal_strlit("com.apple.keylayout.Polish");
    assert("com.apple.keylayout.Polish"@.len() == 26);
    reveal_strlit("com.apple.keylayout.Lithuanian");
    assert("com.apple.keylayout.Lithuanian"@.len() == 30);
    reveal_strlit("com.apple.keylayout.Hungarian");
    assert("com.apple.keylayout.Hungarian"@.len() == 29);
    reveal_strlit("com.apple.keylayout.Hungarian-QWERTY");
    assert("com.apple.keylayout.Hungarian-QWERTY"@.len() == 36);
    reveal_strlit("com.apple.keylayout.Czech-QWERTY");
    assert("com.apple.keylayout.Czech-QWERTY"@.len() == 32);
    reveal_strlit("com.apple.keylayout.Maltese");
    assert("com.apple.keylayout.Maltese"@.len() == 27);
    reveal_strlit("com.apple.keylayout.Turkish");
    assert("com.apple.keylayout.Turkish"@.len() == 27);
    reveal_strlit("com.apple.keylayout.Turkish-Standard");
    assert("com.apple.keylayout.Turkish-Standard"@.len() == 36);
    reveal_strlit("com.apple.keylayout.NorwegianSami-PC");
    assert("com.apple.keylayout.NorwegianSami-PC"@.len() == 36);
    reveal_strlit("com.apple.keylayout.Serbian-Latin");
    assert("com.apple.keylayout.Serbian-Latin"@.len() == 33);
    reveal_strlit("com.apple.keylayout.Slovenian");
    assert("com.apple.keylayout.Slovenian"@.len() == 29);
    reveal_strlit("com.apple.keylayout.SwedishSami-PC");
    assert("com.apple.keylayout.SwedishSami-PC"@.len() == 34);
    reveal_strlit("com.apple.keylayout.SwissGerman");
    assert("com.apple.keylayout.SwissGerman"@.len() == 31);
    reveal_strlit("com.apple.keylayout.Hawaiian");
    assert("com.apple.keylayout.Hawaiian"@.len() == 28);
    reveal_strlit("com.apple.keylayout.NorthernSami");
    assert("com.apple.keylayout.NorthernSami"@.len() == 32);
    reveal_strlit("com.apple.keylayout.USInternational-PC");
    assert("com.apple.keylayout.USInternational-PC"@.len() == 38);
    reveal_strlit("com.apple.keylayout.NorwegianExtended");
    assert("com.apple.keylayout.NorwegianExtended"@.len() == 37);
    reveal_strlit("com.apple.keylayout.Norwegian");
    assert("com.apple.keylayout.Norwegian"@.len() == 29);
    reveal_strlit("com.apple.keylayout.ABC-QWERTZ");
    assert("com.apple.keylayout.ABC-QWERTZ"@.len() == 30);
    reveal_strlit("com.apple.keylayout.ABC-AZERTY");
    assert("com.apple.keylayout.ABC-AZERTY"@.len() == 30);
}

proof fn lemma_layout_59()
    ensures
        layout_table("com.apple.keylayout.Brazilian-Pro"@) == Some(("^~"@, "ˆ˜"@)),
{
    reveal_strlit("com.apple.keylayout.Brazilian-Pro");
    assert("com.apple.keylayout.Brazilian-Pro"@.len() == 33);
    reveal_strlit("com.apple.keylayout.Welsh");
    assert("com.apple.keylayout.Welsh"@.len() == 25);
    reveal_strlit("com.apple.keylayout.Turkmen");
    assert("com.apple.keylayout.Turkmen"@.len() == 27);
    reveal_strlit("com.apple.keylayout.Turkish-QWERTY-PC");
    assert("com.apple.keylayout.Turkish-QWERTY-PC"@.len() == 37);
    reveal_strlit("com.apple.keylayout.Sami-PC");
    assert("com.apple.keylayout.Sami-PC"@.len() == 27);
    reveal_strlit("com.apple.keylayout.LatinAmerican");
    assert("com.apple.keylayout.LatinAmerican"@.len() == 33);
    assert("com.apple.keylayout.Brazilian-Pro"@[20] != "com.apple.keylayout.LatinAmerican"@[20]);
    reveal_strlit("com.apple.keylayout.IrishExtended");
    assert("com.apple.keylayout.IrishExtended"@.len() == 33);
    assert("com.apple.keylayout.Brazilian-Pro"@[20] != "com.apple.keylayout.IrishExtended"@[20]);
    reveal_strlit("com.apple.keylayout.Icelandic");
    assert("com.apple.keylayout.Icelandic"@.len() == 29);
    reveal_strlit("com.apple.keylayout.German-DIN-2137");
    assert("com.apple.keylayout.German-DIN-2137"@.len() == 35);
    reveal_strlit("com.apple.keylayout.FinnishSami-PC");
    assert("com.apple.keylayout.FinnishSami-PC"@.len() == 34);
    reveal_strlit("com.apple.keylayout.FinnishExtended");
    assert("com.apple.keylayout.FinnishExtended"@.len() == 35);
    reveal_strlit("com.apple.keylayout.Faroese");
    assert("com.apple.keylayout.Faroese"@.len() == 27);
    reveal_strlit("com.apple.keylayout.Croatian-PC");
    assert("com.apple.keylayout.Croatian-PC"@.len() == 31);
    reveal_strlit("com.apple.keylayout.Croatian");
    assert("com.apple.keylayout.Croatian"@.len() == 28);
    reveal_strlit("com.apple.keylayout.Azeri");
    assert("com.apple.keylayout.Azeri"@.len() == 25);
    reveal_strlit("com.apple.keylayout.Albanian");
    assert("com.apple.keylayout.Albanian"@.len() == 28);
    reveal_strlit("com.apple.keylayout.SwissFrench");
    assert("com.apple.keylayout.SwissFrench"@.len() == 31);
    reveal_strlit("com.apple.keylayout.Swedish");
    assert("com.apple.keylayout.Swedish"@.len() == 27);
    reveal_strlit("com.apple.keylayout.Swedish-Pro");
    assert("com.apple.keylayout.Swedish-Pro"@.len() == 31);
    reveal_strlit("com.apple.keylayout.Spanish");
    assert("com.apple.keylayout.Spanish"@.len() == 27);
    reveal_strlit("com.apple.keylayout.Spanish-ISO");
    assert("com.apple.keylayout.Spanish-ISO"@.len() == 31);
    reveal_strlit("com.apple.keylayout.Portuguese");
    assert("com.apple.keylayout.Portuguese"@.len() == 30);
    reveal_strlit("com.apple.keylayout.Italian");
    assert("com.apple.keylayout.Italian"@.len() == 27);
    reveal_strlit("com.apple.keylayout.Italian-Pro");
    assert("com.apple.keylayout.Italian-Pro"@.len() == 31);
    reveal_strlit("com.apple.keylayout.Irish");
    assert("com.apple.keylayout.Irish"@.len() == 25);
    reveal_strlit("com.apple.keylayout.German");
    assert("com.apple.keylayout.German"@.len() == 26);
    reveal_strlit("com.apple.keylayout.French");
    assert("com.apple.keylayout.French"@.len() == 26);
    reveal_strlit("com.apple.keylayout.French-numerical");
    assert("com.apple.keylayout.French-numerical"@.len() == 36);
    reveal_strlit("com.apple.keylayout.French-PC");
    assert("com.apple.keylayout.French-PC"@.len() == 29);
    reveal_strlit("com.apple.keylayout.Finnish");
    assert("com.apple.keylayout.Finnish"@.len() == 27);
    reveal_strlit("com.apple.keylayout.Danish");
    assert("com.apple.keylayout.Danish"@.len() == 26);
    reveal_strlit("com.apple.keylayout.Canadian-CSA");
    assert("com.apple.keylayout.Canadian-CSA"@.len() == 32);
    reveal_strlit("com.apple.keylayout.British");
    assert("com.apple.keylayout.British"@.len() == 27);
    reveal_strlit("com.apple.keylayout.Brazilian-ABNT2");
    assert("com.apple.keylayout.Brazilian-ABNT2"@.len() == 35);
    reveal_strlit("com.apple.keylayout.Belgian");
    assert("com.apple.keylayout.Belgian"@.len() == 27);
    reveal_strlit("com.apple.keylayout.Austrian");
    assert("com.apple.keylayout.Austrian"@.len() == 28);
    reveal_strlit("com.apple.keylayout.Slovak-QWERTY");
    assert("com.apple.keylayout.Slovak-QWERTY"@.len() == 33);
    assert("com.apple.keylayout.Brazilian-Pro"@[20] != "com.apple.keylayout.Slovak-QWERTY"@[20]);
    reveal_strlit("com.apple.keylayout.Slovak");
    assert("com.apple.keylayout.Slovak"@.len() == 26);
    reveal_strlit("com.apple.keylayout.Polish");
    assert("com.apple.keylayout.Polish"@.len() == 26);
    reveal_strlit("com.apple.keylayout.Lithuanian");
    assert("com.apple.keylayout.Lithuanian"@.len() == 30);
    reveal_strlit("com.apple.keylayout.Hungarian");
    assert("com.apple.keylayout.Hungarian"@.len() == 29);
    reveal_strlit("com.apple.keylayout.Hungarian-QWERTY");
    assert("com.apple.keylayout.Hungarian-QWERTY"@.len() == 36);
    reveal_strlit("com.apple.keylayout.Czech-QWERTY");
    assert("com.apple.keylayout.Czech-QWERTY"@.len() == 32);
    reveal_strlit("com.apple.keylayout.Maltese");
    assert("com.apple.keylayout.Maltese"@.len() == 27);
    reveal_strlit("com.apple.keylayout.Turkish");
    assert("com.apple.keylayout.Turkish"@.len() == 27);
    reveal_strlit("com.apple.keylayout.Turkish-Standard");
    assert("com.apple.keylayout.Turkish-Standard"@.len() == 36);
    reveal_strlit("com.apple.keylayout.NorwegianSami-PC");
    assert("com.apple.keylayout.NorwegianSami-PC"@.len() == 36);
    reveal_strlit("com.apple.keylayout.Serbian-Latin");
    assert("com.apple.keylayout.Serbian-Latin"@.len() == 33);
    assert("com.apple.keylayout.Brazilian-Pro"@[20] != "com.apple.keylayout.Serbian-Latin"@[20]);
    reveal_strlit("com.apple.keylayout.Slovenian");
    assert("com.apple.keylayout.Slovenian"@.len() == 29);
    reveal_strlit("com.apple.keylayout.SwedishSami-PC");
    assert("com.apple.keylayout.SwedishSami-PC"@.len() == 34);
    reveal_strlit("com.apple.keylayout.SwissGerman");
    assert("com.apple.keylayout.SwissGerman"@.len() == 31);
    reveal_strlit("com.apple.keylayout.Hawaiian");
    assert("com.apple.keylayout.Hawaiian"@.len() == 28);
    reveal_strlit("com.apple.keylayout.NorthernSami");
    assert("com.apple.keylayout.NorthernSami"@.len() == 32);
    reveal_strlit("com.apple.keylayout.USInternational-PC");
    assert("com.apple.keylayout.USInternational-PC"@.len() == 38);
    reveal_strlit("com.apple.keylayout.NorwegianExtended");
    assert("com.apple.keylayout.NorwegianExtended"@.len() == 37);
    reveal_strlit("com.apple.keylayout.Norwegian");
    assert("com.apple.keylayout.Norwegian"@.len() == 29);
    reveal_strlit("com.apple.keylayout.ABC-QWERTZ");
    assert("com.apple.keylayout.ABC-QWERTZ"@.len() == 30);
    reveal_strlit("com.apple.keylayout.ABC-AZERTY");
    assert("com.apple.keylayout.ABC-AZERTY"@.len() == 30);
    reveal_strlit("com.apple.keylayout.Czech");
    assert("com.apple.keylayout.Czech"@.len() == 25);
}

/// The layouts that have shortcut equivalents, each with its table: the
/// shortcut characters and, position by position, what they are typed as.
pub proof fn lemma_layout_tables()
    ensures
        layout_table("com.apple.keylayout.Welsh"@) == Some(("#"@, "£"@)),
        layout_table("com.apple.keylayout.Turkmen"@) == Some(("qc]Q`|[XV\\^v~Cx}{"@, "äçöÄžŞňÜÝş№ýŽÇüÖŇ"@)),
        layout_table("com.apple.keylayout.Turkish-QWERTY-PC"@) == Some(("$\\|`'[}^=.#{*+:/~;)(@<,&]>\""@, "+,;<ığÜ&.ç^Ğ(:Ş*>ş=)'Öö/üÇI"@)),
        layout_table("com.apple.keylayout.Sami-PC"@) == Some(("}*x\"w[~^/@`]{|<)>W(\\X=Qq&':;"@, "Æ(čŊšøŽ&´\"žæØĐ;=:Š)đČ`Áá/ŋÅå"@)),
        layout_table("com.apple.keylayout.LatinAmerican"@) == Some(("[^~>`(<\\@{;*&/):]|='}\""@, "{&>:<);¿\"[ñ(/'=Ñ}¡*´]¨"@)),
        layout_table("com.apple.keylayout.IrishExtended"@) == Some(("#"@, "£"@)),
        layout_table("com.apple.keylayout.Icelandic"@) == Some(("[}=:/'){(*&;^|`\"\\>]<~@"@, "æ´*Ð'ö=Æ)(/ð&Þ<Öþ:´;>\""@)),
        layout_table("com.apple.keylayout.German-DIN-2137"@) == Some(("}~/<^>{`:\\)&=[]@|;#'\"(*"@, "Ä>ß;&:Ö<Ü#=/*öä\"'ü§´`)("@)),
        layout_table("com.apple.keylayout.FinnishSami-PC"@) == Some((")=*\"\\[@{:>';/<|~(]}^`&"@, "=`(ˆ@ö\"ÖÅ:¨å´;*>)äÄ&</"@)),
        layout_table("com.apple.keylayout.FinnishExtended"@) == Some(("];{`:'*<~=/}\\|&[\"($^)>@"@, "äåÖ<Å¨(;>`´Ä'*/öˆ)€&=:\""@)),
        layout_table("com.apple.keylayout.Faroese"@) == Some(("}\";/$>^@~`:&[*){|]=(\\<'"@, "ÐØæ´€:&\"><Æ/å(=Å*ð`)';ø"@)),
        layout_table("com.apple.keylayout.Croatian-PC"@) == Some(("{@~;<=>(&*['|]\":/}^`)\\"@, "Š\">č;*:)/(šćŽđĆČ'Đ&<=ž"@)),
        layout_table("com.apple.keylayout.Croatian"@) == Some(("{@;<~=>(&*['|]\":}^)\\`"@, "Š\"č;>*:)'(šćŽđĆČĐ&=ž<"@)),
        layout_table("com.apple.keylayout.Azeri"@) == Some((":{W?./\"[}<]|,>';w"@, "IÖÜ,ş.ƏöĞÇğ/çŞəıü"@)),
        layout_table("com.apple.keylayout.Albanian"@) == Some(("\\'~;:|<>`\"@"@, "ë@>çÇË;:<'\""@)),
        layout_table("com.apple.keylayout.SwissFrench"@) == Some((":@&'~^)$;\"][\\/#={!|*+`<(>}"@, "ü\"/^>&=çè`àé$'*¨ö+£(!<;):ä"@)),
        layout_table("com.apple.keylayout.Swedish"@) == Some(("(]\\\"~$`^{|/>*:;<)&=[}'@"@, ")ä'^>€<&Ö*´:(Åå;=/`öÄ¨\""@)),
        layout_table("com.apple.keylayout.Swedish-Pro"@) == Some(("/^*`'{|)$>&<[\\;(~\"}@]:="@, "´&(<¨Ö*=€:/;ö'å)>^Ä\"äÅ`"@)),
        layout_table("com.apple.keylayout.Spanish"@) == Some(("|!\\<{[:;@`/~].'>}\"^"@, "\"¡'¿Ññº´!<.>;ç`Ç:¨/"@)),
        layout_table("com.apple.keylayout.Spanish-ISO"@) == Some(("|~`]/:)(<&^>*;#}\"{.\\['@"@, "\"><;.º=)¿/&Ç(´·not found¨Ñç'ñ`\""@)),
        layout_table("com.apple.keylayout.Portuguese"@) == Some((")`/'^\"<];>[:{@}(&*=~"@, "=<'´&`;~º:çªÇ\"^)/(*>"@)),
        layout_table("com.apple.keylayout.Italian"@) == Some(("*7};8:!5%(1&4]^\\6)32>.</0|$,'{[`\"~9#@"@, "8)*ò£!1ç59&7($6§è0'\"/:.,é°4;ù^ì<%>à32"@)),
        layout_table("com.apple.keylayout.Italian-Pro"@) == Some(("/:@[]'\\=){;|#<\"(*^&`}>~"@, "'é\"òàìù*=çè§£;^)(&/<°:>"@)),
        layout_table("com.apple.keylayout.Irish"@) == Some(("#"@, "£"@)),
        layout_table("com.apple.keylayout.German"@) == Some(("=`#'}:)/\"^&]*{;|[<(>~@\\"@, "*<§´ÄÜ=ß`&/ä(Öü'ö;):>\"#"@)),
        layout_table("com.apple.keylayout.French"@) == Some(("*}7;8:!5%(1&4]\\^6)32>.</0|${'[`\"~9#@"@, "8*è)!°1(59&7'$`6§0\"é/;.:à£4¨ù^<%>ç32"@)),
        layout_table("com.apple.keylayout.French-numerical"@) == Some(("|!52;][>&@\"%'{)<~7.1/^(}*8#0$9`6\\3:4"@, "£1(é)$^/72%5ù¨0.>è;&:69*8!3à4ç<§`\"°'"@)),
        layout_table("com.apple.keylayout.French-PC"@) == Some(("!&\"_$}/72>8]#:31)*<%4;6\\-{['@(0|5.`9~^"@, "17%°4£:èé/_$3§\"&08.5'!-*)¨^ù29àμ(;<ç>6"@)),
        layout_table("com.apple.keylayout.Finnish"@) == Some(("/^*`)'{|$>&<[\\~;(\"}@]:="@, "´&(<=¨Ö*€:/;ö'>å)^Ä\"äÅ`"@)),
        layout_table("com.apple.keylayout.Danish"@) == Some(("=[;'`{}|>]*^(&@~)<\\/$\":"@, "`æå¨<ÆØ*:ø(&)/\">=;'´€^Å"@)),
        layout_table("com.apple.keylayout.Canadian-CSA"@) == Some(("\\?']/><[{}|~`\""@, "àÉèçé\"'^¨ÇÀÙùÈ"@)),
        layout_table("com.apple.keylayout.British"@) == Some(("#"@, "£"@)),
        layout_table("com.apple.keylayout.Brazilian-ABNT2"@) == Some(("\"|~?`'/^\\"@, "`^\"Ç'´ç¨~"@)),
        layout_table("com.apple.keylayout.Belgian"@) == Some(("`3/*<\\8>7#&96@);024(|'1\":$[~5.%^}]{!"@, "<\":8.`!/è37ç§20)àé'9£ù&%°4^>(;56*$¨1"@)),
        layout_table("com.apple.keylayout.Austrian"@) == Some(("/^*`'{|)>&<[\\;(~\"}@]:=#"@, "ß&(<´Ö'=:/;ö#ü)>`Ä\"äÜ*§"@)),
        layout_table("com.apple.keylayout.Slovak-QWERTY"@) == Some(("):9;63'\"]^/+@~>`?<!#5&${2}%*18(704["@, "0\"íôžš§!ä6'%2Ň:ňˇ?13ť74ÚľÄ58+á9ýéčú"@)),
        layout_table("com.apple.keylayout.Slovak"@) == Some(("!$`10&:#4^*~{%5')}6/\"[8]97?;<@23>(+"@, "14ň+é7\"3č68ŇÚ5ť§0Äž'!úáäíýˇô?2ľš:9%"@)),
        layout_table("com.apple.keylayout.Polish"@) == Some(("&)|?,%:;^}]_{!+#(*`/[~<\"$.>'@=\\"@, ":\"$Ż.+Łł=)(ćź§]!/_<żó>śę?,ńą%[;"@)),
        layout_table("com.apple.keylayout.Lithuanian"@) == Some(("+#&=!%1*@73^584$26"@, "ŽĘŲžĄĮąŪČųęŠįūėĖčš"@)),
        layout_table("com.apple.keylayout.Hungarian"@) == Some(("}(*@\"{=/|;>'[`<~\\!$&0#:]^)+"@, "Ú)(\"ÁŐóüŰé:áőíÜÍű'!=ö+Éú/ÖÓ"@)),
        layout_table("com.apple.keylayout.Hungarian-QWERTY"@) == Some(("=]#>@/&<`0')~(\\!:*;$\"+^{|}["@, "óú+:\"ü=ÜíöáÖÍ)ű'É(é!ÁÓ/ŐŰÚő"@)),
        layout_table("com.apple.keylayout.Czech-QWERTY"@) == Some(("9>0[2()\"}@]46%5;#8{*7^~+!3?&'<$/1`:"@, "í:éúě90!(2)čž5řů3áÚ8ý6`%1šˇ7§?4'+¨\""@)),
        layout_table("com.apple.keylayout.Maltese"@) == Some(("[`}{#]~"@, "ġżĦĠ£ħŻ"@)),
        layout_table("com.apple.keylayout.Turkish"@) == Some(("|}(#>&^-/`$%@]~*,[\"<_.{:'\\)"@, "ÜI%\"Ç)/ş.<'(*ı>_öğ-ÖŞçĞ$,ü:"@)),
        layout_table("com.apple.keylayout.Turkish-Standard"@) == Some(("|}(#>=&^`@]~*,;[\"<.{:'\\)"@, "ÜI)^;*'&ö\"ıÖ(.çğŞ:,ĞÇşü="@)),
        layout_table("com.apple.keylayout.NorwegianSami-PC"@) == Some(("\"}~<`&>':{@*^|\\)=([]/;"@, "ˆÆ>;</:¨ÅØ\"(&*@=`)øæ´å"@)),
        layout_table("com.apple.keylayout.Serbian-Latin"@) == Some((";\\@>&'<]\"|(=}^)`[~:*{"@, "čž\":'ć;đĆŽ)*Đ&=<š>Č(Š"@)),
        layout_table("com.apple.keylayout.Slovenian"@) == Some(("]`^@)&\":'*=<{;}(~>\\|["@, "đ<&\"='ĆČć(*;ŠčĐ)>:žŽš"@)),
        layout_table("com.apple.keylayout.SwedishSami-PC"@) == Some(("@=<^|`>){'&\"}]~[/:*\\(;"@, "\"`;&*<:=Ö¨/ˆÄä>ö´Å(@)å"@)),
        layout_table("com.apple.keylayout.SwissGerman"@) == Some(("={#:\\}!(+]/<\";$'`*[>&^~@)|"@, "¨é*è$à+)!ä';`üç^<(ö:/&>\"=£"@)),
        layout_table("com.apple.keylayout.Hawaiian"@) == Some(("'"@, "ʻ"@)),
        layout_table("com.apple.keylayout.NorthernSami"@) == Some((":/[<{X\"wQx\\(;~>W}`*@])'^|=q&"@, "Å´ø;ØČŊšÁčđ)åŽ:ŠÆž(\"æ=ŋ&Đ`á/"@)),
        layout_table("com.apple.keylayout.USInternational-PC"@) == Some(("^~"@, "ˆ˜"@)),
        layout_table("com.apple.keylayout.NorwegianExtended"@) == Some(("^~"@, "ˆ˜"@)),
        layout_table("com.apple.keylayout.Norwegian"@) == Some(("`'~\"\\*|=/@)[:}&><]{(^;"@, "<¨>^@(*`´\"=øÅÆ/:;æØ)&å"@)),
        layout_table("com.apple.keylayout.ABC-QWERTZ"@) == Some(("\"}~<`>'&#:{@*^|\\)=(]/;["@, "`Ä>;<:´/§ÜÖ\"(&'#=*)äßüö"@)),
        layout_table("com.apple.keylayout.ABC-AZERTY"@) == Some((">[$61%@7|)&8\":}593(.4^<!{`2]\\#;~*/'0"@, "/^4§&52è£07!%°*(ç\"9;'6.1¨<é$`3)>8:ùà"@)),
        layout_table("com.apple.keylayout.Czech"@) == Some(("(7*#193620?/{)@~!$8+;:%4\">`^]&5}[<'"@, "9ý83+íšžěéˇ'Ú02`14á%ů\"5č!:¨6)7ř(ú?§"@)),
        layout_table("com.apple.keylayout.Brazilian-Pro"@) == Some(("^~"@, "ˆ˜"@)),
{
    lemma_layout_1();
    lemma_layout_2();
    lemma_layout_3();
    lemma_layout_4();
    lemma_layout_5();
    lemma_layout_6();
    lemma_layout_7();
    lemma_layout_8();
    lemma_layout_9();
    lemma_layout_10();
    lemma_layout_11();
    lemma_layout_12();
    lemma_layout_13();
    lemma_layout_14();
    lemma_layout_15();
    lemma_layout_16();
    lemma_layout_17();
    lemma_layout_18();
    lemma_layout_19();
    lemma_layout_20();
    lemma_layout_21();
    lemma_layout_22();
    lemma_layout_23();
    lemma_layout_24();
    lemma_layout_25();
    lemma_layout_26();
    lemma_layout_27();
    lemma_layout_28();
    lemma_layout_29();
    lemma_layout_30();
    lemma_layout_31();
    lemma_layout_32();
    lemma_layout_33();
    lemma_layout_34();
    lemma_layout_35();
    lemma_layout_36();
    lemma_layout_37();
    lemma_layout_38();
    lemma_layout_39();
    lemma_layout_40();
    lemma_layout_41();
    lemma_layout_42();
    lemma_layout_43();
    lemma_layout_44();
    lemma_layout_45();
    lemma_layout_46();
    lemma_layout_47();
    lemma_layout_48();
    lemma_layout_49();
    lemma_layout_50();
    lemma_layout_51();
    lemma_layout_52();
    lemma_layout_53();
    lemma_layout_54();
    lemma_layout_55();
    lemma_layout_56();
    lemma_layout_57();
    lemma_layout_58();
    lemma_layout_59();
}

/// A layout that is not one of those listed in `lemma_layout_tables` has no
/// shortcut equivalents.
pub proof fn lemma_other_layouts_have_no_table(layout: Seq<char>)
    requires
        layout != "com.apple.keylayout.Welsh"@,
        layout != "com.apple.keylayout.Turkmen"@,
        layout != "com.apple.keylayout.Turkish-QWERTY-PC"@,
        layout != "com.apple.keylayout.Sami-PC"@,
        layout != "com.apple.keylayout.LatinAmerican"@,
        layout != "com.apple.keylayout.IrishExtended"@,
        layout != "com.apple.keylayout.Icelandic"@,
        layout != "com.apple.keylayout.German-DIN-2137"@,
        layout != "com.apple.keylayout.FinnishSami-PC"@,
        layout != "com.apple.keylayout.FinnishExtended"@,
        layout != "com.apple.keylayout.Faroese"@,
        layout != "com.apple.keylayout.Croatian-PC"@,
        layout != "com.apple.keylayout.Croatian"@,
        layout != "com.apple.keylayout.Azeri"@,
        layout != "com.apple.keylayout.Albanian"@,
        layout != "com.apple.keylayout.SwissFrench"@,
        layout != "com.apple.keylayout.Swedish"@,
        layout != "com.apple.keylayout.Swedish-Pro"@,
        layout != "com.apple.keylayout.Spanish"@,
        layout != "com.apple.keylayout.Spanish-ISO"@,
        layout != "com.apple.keylayout.Portuguese"@,
        layout != "com.apple.keylayout.Italian"@,
        layout != "com.apple.keylayout.Italian-Pro"@,
        layout != "com.apple.keylayout.Irish"@,
        layout != "com.apple.keylayout.German"@,
        layout != "com.apple.keylayout.French"@,
        layout != "com.apple.keylayout.French-numerical"@,
        layout != "com.apple.keylayout.French-PC"@,
        layout != "com.apple.keylayout.Finnish"@,
        layout != "com.apple.keylayout.Danish"@,
        layout != "com.apple.keylayout.Canadian-CSA"@,
        layout != "com.apple.keylayout.British"@,
        layout != "com.apple.keylayout.Brazilian-ABNT2"@,
        layout != "com.apple.keylayout.Belgian"@,
        layout != "com.apple.keylayout.Austrian"@,
        layout != "com.apple.keylayout.Slovak-QWERTY"@,
        layout != "com.apple.keylayout.Slovak"@,
        layout != "com.apple.keylayout.Polish"@,
        layout != "com.apple.keylayout.Lithuanian"@,
        layout != "com.apple.keylayout.Hungarian"@,
        layout != "com.apple.keylayout.Hungarian-QWERTY"@,
        layout != "com.apple.keylayout.Czech-QWERTY"@,
        layout != "com.apple.keylayout.Maltese"@,
        layout != "com.apple.keylayout.Turkish"@,
        layout != "com.apple.keylayout.Turkish-Standard"@,
        layout != "com.apple.keylayout.NorwegianSami-PC"@,
        layout != "com.apple.keylayout.Serbian-Latin"@,
        layout != "com.apple.keylayout.Slovenian"@,
        layout != "com.apple.keylayout.SwedishSami-PC"@,
        layout != "com.apple.keylayout.SwissGerman"@,
        layout != "com.apple.keylayout.Hawaiian"@,
        layout != "com.apple.keylayout.NorthernSami"@,
        layout != "com.apple.keylayout.USInternational-PC"@,
        layout != "com.apple.keylayout.NorwegianExtended"@,
        layout != "com.apple.keylayout.Norwegian"@,
        layout != "com.apple.keylayout.ABC-QWERTZ"@,
        layout != "com.apple.keylayout.ABC-AZERTY"@,
        layout != "com.apple.keylayout.Czech"@,
        layout != "com.apple.keylayout.Brazilian-Pro"@,
    ensures
        layout_table(layout) is None,
{
}

/// A printable ASCII character other than space.
pub open spec fn is_ascii_graphic(c: char) -> bool {
    '!' <= c <= '~'
}

/// Every character of `s` is a printable ASCII character other than space.
#[verifier::opaque]
pub open spec fn all_ascii_graphic(s: Seq<char>) -> bool
    decreases s.len(),
{
    s.len() == 0 || (is_ascii_graphic(s[0]) && all_ascii_graphic(s.drop_first()))
}

/// Facts about one layout's table, checked on its data.
pub open spec fn table_well_formed(from: Seq<char>, to: Seq<char>) -> bool {
    &&& all_distinct(from)
    &&& all_ascii_graphic(from)
    &&& from.len() > 0
    &&& to.len() > 0
}

proof fn lemma_table_1()
    ensures
        table_well_formed("#"@, "£"@),
{
    reveal_strlit("#");
    reveal_strlit("£");
    reveal_with_fuel(all_distinct, 40);
    reveal_with_fuel(differs_from_all, 40);
    reveal_with_fuel(all_ascii_graphic, 40);
}

proof fn lemma_table_2()
    ensures
        table_well_formed("qc]Q`|[XV\\^v~Cx}{"@, "äçöÄžŞňÜÝş№ýŽÇüÖŇ"@),
{
    reveal_strlit("qc]Q`|[XV\\^v~Cx}{");
    reveal_strlit("äçöÄžŞňÜÝş№ýŽÇüÖŇ");
    reveal_with_fuel(all_distinct, 40);
    reveal_with_fuel(differs_from_all, 40);
    reveal_with_fuel(all_ascii_graphic, 40);
}

proof fn lemma_table_3()
    ensures
        table_well_formed("$\\|`'[}^=.#{*+:/~;)(@<,&]>\""@, "+,;<ığÜ&.ç^Ğ(:Ş*>ş=)'Öö/üÇI"@),
{
    reveal_strlit("$\\|`'[}^=.#{*+:/~;)(@<,&]>\"");
    reveal_strlit("+,;<ığÜ&.ç^Ğ(:Ş*>ş=)'Öö/üÇI");
    reveal_with_fuel(all_distinct, 40);
    reveal_with_fuel(differs_from_all, 40);
    reveal_with_fuel(all_ascii_graphic, 40);
}

proof fn lemma_table_4()
    ensures
        table_well_formed("}*x\"w[~^/@`]{|<)>W(\\X=Qq&':;"@, "Æ(čŊšøŽ&´\"žæØĐ;=:Š)đČ`Áá/ŋÅå"@),
{
    reveal_strlit("}*x\"w[~^/@`]{|<)>W(\\X=Qq&':;");
    reveal_strlit("Æ(čŊšøŽ&´\"žæØĐ;=:Š)đČ`Áá/ŋÅå");
    reveal_with_fuel(all_distinct, 40);
    reveal_with_fuel(differs_from_all, 40);
    reveal_with_fuel(all_ascii_graphic, 40);
}

proof fn lemma_table_5()
    ensures
        table_well_formed("[^~>`(<\\@{;*&/):]|='}\""@, "{&>:<);¿\"[ñ(/'=Ñ}¡*´]¨"@),
{
    reveal_strlit("[^~>`(<\\@{;*&/):]|='}\"");
    reveal_strlit("{&>:<);¿\"[ñ(/'=Ñ}¡*´]¨");
    reveal_with_fuel(all_distinct, 40);
    reveal_with_fuel(differs_from_all, 40);
    reveal_with_fuel(all_ascii_graphic, 40);
}

proof fn lemma_table_6()
    ensures
        table_well_formed("#"@, "£"@),
{
    reveal_strlit("#");
    reveal_strlit("£");
    reveal_with_fuel(all_distinct, 40);
    reveal_with_fuel(differs_from_all, 40);
    reveal_with_fuel(all_ascii_graphic, 40);
}

proof fn lemma_table_7()
    ensures
        table_well_formed("[}=:/'){(*&;^|`\"\\>]<~@"@, "æ´*Ð'ö=Æ)(/ð&Þ<Öþ:´;>\""@),
{
    reveal_strlit("[}=:/'){(*&;^|`\"\\>]<~@");
    reveal_strlit("æ´*Ð'ö=Æ)(/ð&Þ<Öþ:´;>\"");
    reveal_with_fuel(all_distinct, 40);
    reveal_with_fuel(differs_from_all, 40);
    reveal_with_fuel(all_ascii_graphic, 40);
}

proof fn lemma_table_8()
    ensures
        table_well_formed("}~/<^>{`:\\)&=[]@|;#'\"(*"@, "Ä>ß;&:Ö<Ü#=/*öä\"'ü§´`)("@),
{
    reveal_strlit("}~/<^>{`:\\)&=[]@|;#'\"(*");
    reveal_strlit("Ä>ß;&:Ö<Ü#=/*öä\"'ü§´`)(");
    reveal_with_fuel(all_distinct, 40);
    reveal_with_fuel(differs_from_all, 40);
    reveal_with_fuel(all_ascii_graphic, 40);
}

proof fn lemma_table_9()
    ensures
        table_well_formed(")=*\"\\[@{:>';/<|~(]}^`&"@, "=`(ˆ@ö\"ÖÅ:¨å´;*>)äÄ&</"@),
{
    reveal_strlit(")=*\"\\[@{:>';/<|~(]}^`&");
    reveal_strlit("=`(ˆ@ö\"ÖÅ:¨å´;*>)äÄ&</");
    reveal_with_fuel(all_distinct, 40);
    reveal_with_fuel(differs_from_all, 40);
    reveal_with_fuel(all_ascii_graphic, 40);
}

proof fn lemma_table_10()
    ensures
        table_well_formed("];{`:'*<~=/}\\|&[\"($^)>@"@, "äåÖ<Å¨(;>`´Ä'*/öˆ)€&=:\""@),
{
    reveal_strlit("];{`:'*<~=/}\\|&[\"($^)>@");
    reveal_strlit("äåÖ<Å¨(;>`´Ä'*/öˆ)€&=:\"");
    reveal_with_fuel(all_distinct, 40);
    reveal_with_fuel(differs_from_all, 40);
    reveal_with_fuel(all_ascii_graphic, 40);
}

proof fn lemma_table_11()
    ensures
        table_well_formed("}\";/$>^@~`:&[*){|]=(\\<'"@, "ÐØæ´€:&\"><Æ/å(=Å*ð`)';ø"@),
{
    reveal_strlit("}\";/$>^@~`:&[*){|]=(\\<'");
    reveal_strlit("ÐØæ´€:&\"><Æ/å(=Å*ð`)';ø");
    reveal_with_fuel(all_distinct, 40);
    reveal_with_fuel(differs_from_all, 40);
    reveal_with_fuel(all_ascii_graphic, 40);
}

proof fn lemma_table_12()
    ensures
        table_well_formed("{@~;<=>(&*['|]\":/}^`)\\"@, "Š\">č;*:)/(šćŽđĆČ'Đ&<=ž"@),
{
    reveal_strlit("{@~;<=>(&*['|]\":/}^`)\\");
    reveal_strlit("Š\">č;*:)/(šćŽđĆČ'Đ&<=ž");
    reveal_with_fuel(all_distinct, 40);
    reveal_with_fuel(differs_from_all, 40);
    reveal_with_fuel(all_ascii_graphic, 40);
}

proof fn lemma_table_13()
    ensures
        table_well_formed("{@;<~=>(&*['|]\":}^)\\`"@, "Š\"č;>*:)'(šćŽđĆČĐ&=ž<"@),
{
    reveal_strlit("{@;<~=>(&*['|]\":}^)\\`");
    reveal_strlit("Š\"č;>*:)'(šćŽđĆČĐ&=ž<");
    reveal_with_fuel(all_distinct, 40);
    reveal_with_fuel(differs_from_all, 40);
    reveal_with_fuel(all_ascii_graphic, 40);
}

proof fn lemma_table_14()
    ensures
        table_well_formed(":{W?./\"[}<]|,>';w"@, "IÖÜ,ş.ƏöĞÇğ/çŞəıü"@),
{
    reveal_strlit(":{W?./\"[}<]|,>';w");
    reveal_strlit("IÖÜ,ş.ƏöĞÇğ/çŞəıü");
    reveal_with_fuel(all_distinct, 40);
    reveal_with_fuel(differs_from_all, 40);
    reveal_with_fuel(all_ascii_graphic, 40);
}

proof fn lemma_table_15()
    ensures
        table_well_formed("\\'~;:|<>`\"@"@, "ë@>çÇË;:<'\""@),
{
    reveal_strlit("\\'~;:|<>`\"@");
    reveal_strlit("ë@>çÇË;:<'\"");
    reveal_with_fuel(all_distinct, 40);
    reveal_with_fuel(differs_from_all, 40);
    reveal_with_fuel(all_ascii_graphic, 40);
}

proof fn lemma_table_16()
    ensures
        table_well_formed(":@&'~^)$;\"][\\/#={!|*+`<(>}"@, "ü\"/^>&=çè`àé$'*¨ö+£(!<;):ä"@),
{
    reveal_strlit(":@&'~^)$;\"][\\/#={!|*+`<(>}");
    reveal_strlit("ü\"/^>&=çè`àé$'*¨ö+£(!<;):ä");
    reveal_with_fuel(all_distinct, 40);
    reveal_with_fuel(differs_from_all, 40);
    reveal_with_fuel(all_ascii_graphic, 40);
}

proof fn lemma_table_17()
    ensures
        table_well_formed("(]\\\"~$`^{|/>*:;<)&=[}'@"@, ")ä'^>€<&Ö*´:(Åå;=/`öÄ¨\""@),
{
    reveal_strlit("(]\\\"~$`^{|/>*:;<)&=[}'@");
    reveal_strlit(")ä'^>€<&Ö*´:(Åå;=/`öÄ¨\"");
    reveal_with_fuel(all_distinct, 40);
    reveal_with_fuel(differs_from_all, 40);
    reveal_with_fuel(all_ascii_graphic, 40);
}

proof fn lemma_table_18()
    ensures
        table_well_formed("/^*`'{|)$>&<[\\;(~\"}@]:="@, "´&(<¨Ö*=€:/;ö'å)>^Ä\"äÅ`"@),
{
    reveal_strlit("/^*`'{|)$>&<[\\;(~\"}@]:=");
    reveal_strlit("´&(<¨Ö*=€:/;ö'å)>^Ä\"äÅ`");
    reveal_with_fuel(all_distinct, 40);
    reveal_with_fuel(differs_from_all, 40);
    reveal_with_fuel(all_ascii_graphic, 40);
}

proof fn lemma_table_19()
    ensures
        table_well_formed("|!\\<{[:;@`/~].'>}\"^"@, "\"¡'¿Ññº´!<.>;ç`Ç:¨/"@),
{
    reveal_strlit("|!\\<{[:;@`/~].'>}\"^");
    reveal_strlit("\"¡'¿Ññº´!<.>;ç`Ç:¨/");
    reveal_with_fuel(all_distinct, 40);
    reveal_with_fuel(differs_from_all, 40);
    reveal_with_fuel(all_ascii_graphic, 40);
}

proof fn lemma_table_20()
    ensures
        table_well_formed("|~`]/:)(<&^>*;#}\"{.\\['@"@, "\"><;.º=)¿/&Ç(´·not found¨Ñç'ñ`\""@),
{
    reveal_strlit("|~`]/:)(<&^>*;#}\"{.\\['@");
    reveal_strlit("\"><;.º=)¿/&Ç(´·not found¨Ñç'ñ`\"");
    reveal_with_fuel(all_distinct, 40);
    reveal_with_fuel(differs_from_all, 40);
    reveal_with_fuel(all_ascii_graphic, 40);
}

proof fn lemma_table_21()
    ensures
        table_well_formed(")`/'^\"<];>[:{@}(&*=~"@, "=<'´&`;~º:çªÇ\"^)/(*>"@),
{
    reveal_strlit(")`/'^\"<];>[:{@}(&*=~");
    reveal_strlit("=<'´&`;~º:çªÇ\"^)/(*>");
    reveal_with_fuel(all_distinct, 40);
    reveal_with_fuel(differs_from_all, 40);
    reveal_with_fuel(all_ascii_graphic, 40);
}

proof fn lemma_table_22()
    ensures
        table_well_formed("*7};8:!5%(1&4]^\\6)32>.</0|$,'{[`\"~9#@"@, "8)*ò£!1ç59&7($6§è0'\"/:.,é°4;ù^ì<%>à32"@),
{
    reveal_strlit("*7};8:!5%(1&4]^\\6)32>.</0|$,'{[`\"~9#@");
    reveal_strlit("8)*ò£!1ç59&7($6§è0'\"/:.,é°4;ù^ì<%>à32");
    reveal_with_fuel(all_distinct, 40);
    reveal_with_fuel(differs_from_all, 40);
    reveal_with_fuel(all_ascii_graphic, 40);
}

proof fn lemma_table_23()
    ensures
        table_well_formed("/:@[]'\\=){;|#<\"(*^&`}>~"@, "'é\"òàìù*=çè§£;^)(&/<°:>"@),
{
    reveal_strlit("/:@[]'\\=){;|#<\"(*^&`}>~");
    reveal_strlit("'é\"òàìù*=çè§£;^)(&/<°:>");
    reveal_with_fuel(all_distinct, 40);
    reveal_with_fuel(differs_from_all, 40);
    reveal_with_fuel(all_ascii_graphic, 40);
}

proof fn lemma_table_24()
    ensures
        table_well_formed("#"@, "£"@),
{
    reveal_strlit("#");
    reveal_strlit("£");
    reveal_with_fuel(all_distinct, 40);
    reveal_with_fuel(differs_from_all, 40);
    reveal_with_fuel(all_ascii_graphic, 40);
}

proof fn lemma_table_25()
    ensures
        table_well_formed("=`#'}:)/\"^&]*{;|[<(>~@\\"@, "*<§´ÄÜ=ß`&/ä(Öü'ö;):>\"#"@),
{
    reveal_strlit("=`#'}:)/\"^&]*{;|[<(>~@\\");
    reveal_strlit("*<§´ÄÜ=ß`&/ä(Öü'ö;):>\"#");
    reveal_with_fuel(all_distinct, 40);
    reveal_with_fuel(differs_from_all, 40);
    reveal_with_fuel(all_ascii_graphic, 40);
}

proof fn lemma_table_26()
    ensures
        table_well_formed("*}7;8:!5%(1&4]\\^6)32>.</0|${'[`\"~9#@"@, "8*è)!°1(59&7'$`6§0\"é/;.:à£4¨ù^<%>ç32"@),
{
    reveal_strlit("*}7;8:!5%(1&4]\\^6)32>.</0|${'[`\"~9#@");
    reveal_strlit("8*è)!°1(59&7'$`6§0\"é/;.:à£4¨ù^<%>ç32");
    reveal_with_fuel(all_distinct, 40);
    reveal_with_fuel(differs_from_all, 40);
    reveal_with_fuel(all_ascii_graphic, 40);
}

proof fn lemma_table_27()
    ensures
        table_well_formed("|!52;][>&@\"%'{)<~7.1/^(}*8#0$9`6\\3:4"@, "£1(é)$^/72%5ù¨0.>è;&:69*8!3à4ç<§`\"°'"@),
{
    reveal_strlit("|!52;][>&@\"%'{)<~7.1/^(}*8#0$9`6\\3:4");
    reveal_strlit("£1(é)$^/72%5ù¨0.>è;&:69*8!3à4ç<§`\"°'");
    reveal_with_fuel(all_distinct, 40);
    reveal_with_fuel(differs_from_all, 40);
    reveal_with_fuel(all_ascii_graphic, 40);
}

proof fn lemma_table_28()
    ensures
        table_well_formed("!&\"_$}/72>8]#:31)*<%4;6\\-{['@(0|5.`9~^"@, "17%°4£:èé/_$3§\"&08.5'!-*)¨^ù29àμ(;<ç>6"@),
{
    reveal_strlit("!&\"_$}/72>8]#:31)*<%4;6\\-{['@(0|5.`9~^");
    reveal_strlit("17%°4£:èé/_$3§\"&08.5'!-*)¨^ù29àμ(;<ç>6");
    reveal_with_fuel(all_distinct, 40);
    reveal_with_fuel(differs_from_all, 40);
    reveal_with_fuel(all_ascii_graphic, 40);
}

proof fn lemma_table_29()
    ensures
        table_well_formed("/^*`)'{|$>&<[\\~;(\"}@]:="@, "´&(<=¨Ö*€:/;ö'>å)^Ä\"äÅ`"@),
{
    reveal_strlit("/^*`)'{|$>&<[\\~;(\"}@]:=");
    reveal_strlit("´&(<=¨Ö*€:/;ö'>å)^Ä\"äÅ`");
    reveal_with_fuel(all_distinct, 40);
    reveal_with_fuel(differs_from_all, 40);
    reveal_with_fuel(all_ascii_graphic, 40);
}

proof fn lemma_table_30()
    ensures
        table_well_formed("=[;'`{}|>]*^(&@~)<\\/$\":"@, "`æå¨<ÆØ*:ø(&)/\">=;'´€^Å"@),
{
    reveal_strlit("=[;'`{}|>]*^(&@~)<\\/$\":");
    reveal_strlit("`æå¨<ÆØ*:ø(&)/\">=;'´€^Å");
    reveal_with_fuel(all_distinct, 40);
    reveal_with_fuel(differs_from_all, 40);
    reveal_with_fuel(all_ascii_graphic, 40);
}

proof fn lemma_table_31()
    ensures
        table_well_formed("\\?']/><[{}|~`\""@, "àÉèçé\"'^¨ÇÀÙùÈ"@),
{
    reveal_strlit("\\?']/><[{}|~`\"");
    reveal_strlit("àÉèçé\"'^¨ÇÀÙùÈ");
    reveal_with_fuel(all_distinct, 40);
    reveal_with_fuel(differs_from_all, 40);
    reveal_with_fuel(all_ascii_graphic, 40);
}

proof fn lemma_table_32()
    ensures
        table_well_formed("#"@, "£"@),
{
    reveal_strlit("#");
    reveal_strlit("£");
    reveal_with_fuel(all_distinct, 40);
    reveal_with_fuel(differs_from_all, 40);
    reveal_with_fuel(all_ascii_graphic, 40);
}

proof fn lemma_table_33()
    ensures
        table_well_formed("\"|~?`'/^\\"@, "`^\"Ç'´ç¨~"@),
{
    reveal_strlit("\"|~?`'/^\\");
    reveal_strlit("`^\"Ç'´ç¨~");
    reveal_with_fuel(all_distinct, 40);
    reveal_with_fuel(differs_from_all, 40);
    reveal_with_fuel(all_ascii_graphic, 40);
}

proof fn lemma_table_34()
    ensures
        table_well_formed("`3/*<\\8>7#&96@);024(|'1\":$[~5.%^}]{!"@, "<\":8.`!/è37ç§20)àé'9£ù&%°4^>(;56*$¨1"@),
{
    reveal_strlit("`3/*<\\8>7#&96@);024(|'1\":$[~5.%^}]{!");
    reveal_strlit("<\":8.`!/è37ç§20)àé'9£ù&%°4^>(;56*$¨1");
    reveal_with_fuel(all_distinct, 40);
    reveal_with_fuel(differs_from_all, 40);
    reveal_with_fuel(all_ascii_graphic, 40);
}

proof fn lemma_table_35()
    ensures
        table_well_formed("/^*`'{|)>&<[\\;(~\"}@]:=#"@, "ß&(<´Ö'=:/;ö#ü)>`Ä\"äÜ*§"@),
{
    reveal_strlit("/^*`'{|)>&<[\\;(~\"}@]:=#");
    reveal_strlit("ß&(<´Ö'=:/;ö#ü)>`Ä\"äÜ*§");
    reveal_with_fuel(all_distinct, 40);
    reveal_with_fuel(differs_from_all, 40);
    reveal_with_fuel(all_ascii_graphic, 40);
}

proof fn lemma_table_36()
    ensures
        table_well_formed("):9;63'\"]^/+@~>`?<!#5&${2}%*18(704["@, "0\"íôžš§!ä6'%2Ň:ňˇ?13ť74ÚľÄ58+á9ýéčú"@),
{
    reveal_strlit("):9;63'\"]^/+@~>`?<!#5&${2}%*18(704[");
    reveal_strlit("0\"íôžš§!ä6'%2Ň:ňˇ?13ť74ÚľÄ58+á9ýéčú");
    reveal_with_fuel(all_distinct, 40);
    reveal_with_fuel(differs_from_all, 40);
    reveal_with_fuel(all_ascii_graphic, 40);
}

proof fn lemma_table_37()
    ensures
        table_well_formed("!$`10&:#4^*~{%5')}6/\"[8]97?;<@23>(+"@, "14ň+é7\"3č68ŇÚ5ť§0Äž'!úáäíýˇô?2ľš:9%"@),
{
    reveal_strlit("!$`10&:#4^*~{%5')}6/\"[8]97?;<@23>(+");
    reveal_strlit("14ň+é7\"3č68ŇÚ5ť§0Äž'!úáäíýˇô?2ľš:9%");
    reveal_with_fuel(all_distinct, 40);
    reveal_with_fuel(differs_from_all, 40);
    reveal_with_fuel(all_ascii_graphic, 40);
}

proof fn lemma_table_38()
    ensures
        table_well_formed("&)|?,%:;^}]_{!+#(*`/[~<\"$.>'@=\\"@, ":\"$Ż.+Łł=)(ćź§]!/_<żó>śę?,ńą%[;"@),
{
    reveal_strlit("&)|?,%:;^}]_{!+#(*`/[~<\"$.>'@=\\");
    reveal_strlit(":\"$Ż.+Łł=)(ćź§]!/_<żó>śę?,ńą%[;");
    reveal_with_fuel(all_distinct, 40);
    reveal_with_fuel(differs_from_all, 40);
    reveal_with_fuel(all_ascii_graphic, 40);
}

proof fn lemma_table_39()
    ensures
        table_well_formed("+#&=!%1*@73^584$26"@, "ŽĘŲžĄĮąŪČųęŠįūėĖčš"@),
{
    reveal_strlit("+#&=!%1*@73^584$26");
    reveal_strlit("ŽĘŲžĄĮąŪČųęŠįūėĖčš");
    reveal_with_fuel(all_distinct, 40);
    reveal_with_fuel(differs_from_all, 40);
    reveal_with_fuel(all_ascii_graphic, 40);
}

proof fn lemma_table_40()
    ensures
        table_well_formed("}(*@\"{=/|;>'[`<~\\!$&0#:]^)+"@, "Ú)(\"ÁŐóüŰé:áőíÜÍű'!=ö+Éú/ÖÓ"@),
{
    reveal_strlit("}(*@\"{=/|;>'[`<~\\!$&0#:]^)+");
    reveal_strlit("Ú)(\"ÁŐóüŰé:áőíÜÍű'!=ö+Éú/ÖÓ");
    reveal_with_fuel(all_distinct, 40);
    reveal_with_fuel(differs_from_all, 40);
    reveal_with_fuel(all_ascii_graphic, 40);
}

proof fn lemma_table_41()
    ensures
        table_well_formed("=]#>@/&<`0')~(\\!:*;$\"+^{|}["@, "óú+:\"ü=ÜíöáÖÍ)ű'É(é!ÁÓ/ŐŰÚő"@),
{
    reveal_strlit("=]#>@/&<`0')~(\\!:*;$\"+^{|}[");
    reveal_strlit("óú+:\"ü=ÜíöáÖÍ)ű'É(é!ÁÓ/ŐŰÚő");
    reveal_with_fuel(all_distinct, 40);
    reveal_with_fuel(differs_from_all, 40);
    reveal_with_fuel(all_ascii_graphic, 40);
}

proof fn lemma_table_42()
    ensures
        table_well_formed("9>0[2()\"}@]46%5;#8{*7^~+!3?&'<$/1`:"@, "í:éúě90!(2)čž5řů3áÚ8ý6`%1šˇ7§?4'+¨\""@),
{
    reveal_strlit("9>0[2()\"}@]46%5;#8{*7^~+!3?&'<$/1`:");
    reveal_strlit("í:éúě90!(2)čž5řů3áÚ8ý6`%1šˇ7§?4'+¨\"");
    reveal_with_fuel(all_distinct, 40);
    reveal_with_fuel(differs_from_all, 40);
    reveal_with_fuel(all_ascii_graphic, 40);
}

proof fn lemma_table_43()
    ensures
        table_well_formed("[`}{#]~"@, "ġżĦĠ£ħŻ"@),
{
    reveal_strlit("[`}{#]~");
    reveal_strlit("ġżĦĠ£ħŻ");
    reveal_with_fuel(all_distinct, 40);
    reveal_with_fuel(differs_from_all, 40);
    reveal_with_fuel(all_ascii_graphic, 40);
}

proof fn lemma_table_44()
    ensures
        table_well_formed("|}(#>&^-/`$%@]~*,[\"<_.{:'\\)"@, "ÜI%\"Ç)/ş.<'(*ı>_öğ-ÖŞçĞ$,ü:"@),
{
    reveal_strlit("|}(#>&^-/`$%@]~*,[\"<_.{:'\\)");
    reveal_strlit("ÜI%\"Ç)/ş.<'(*ı>_öğ-ÖŞçĞ$,ü:");
    reveal_with_fuel(all_distinct, 40);
    reveal_with_fuel(differs_from_all, 40);
    reveal_with_fuel(all_ascii_graphic, 40);
}

proof fn lemma_table_45()
    ensures
        table_well_formed("|}(#>=&^`@]~*,;[\"<.{:'\\)"@, "ÜI)^;*'&ö\"ıÖ(.çğŞ:,ĞÇşü="@),
{
    reveal_strlit("|}(#>=&^`@]~*,;[\"<.{:'\\)");
    reveal_strlit("ÜI)^;*'&ö\"ıÖ(.çğŞ:,ĞÇşü=");
    reveal_with_fuel(all_distinct, 40);
    reveal_with_fuel(differs_from_all, 40);
    reveal_with_fuel(all_ascii_graphic, 40);
}

proof fn lemma_table_46()
    ensures
        table_well_formed("\"}~<`&>':{@*^|\\)=([]/;"@, "ˆÆ>;</:¨ÅØ\"(&*@=`)øæ´å"@),
{
    reveal_strlit("\"}~<`&>':{@*^|\\)=([]/;");
    reveal_strlit("ˆÆ>;</:¨ÅØ\"(&*@=`)øæ´å");
    reveal_with_fuel(all_distinct, 40);
    reveal_with_fuel(differs_from_all, 40);
    reveal_with_fuel(all_ascii_graphic, 40);
}

proof fn lemma_table_47()
    ensures
        table_well_formed(";\\@>&'<]\"|(=}^)`[~:*{"@, "čž\":'ć;đĆŽ)*Đ&=<š>Č(Š"@),
{
    reveal_strlit(";\\@>&'<]\"|(=}^)`[~:*{");
    reveal_strlit("čž\":'ć;đĆŽ)*Đ&=<š>Č(Š");
    reveal_with_fuel(all_distinct, 40);
    reveal_with_fuel(differs_from_all, 40);
    reveal_with_fuel(all_ascii_graphic, 40);
}

proof fn lemma_table_48()
    ensures
        table_well_formed("]`^@)&\":'*=<{;}(~>\\|["@, "đ<&\"='ĆČć(*;ŠčĐ)>:žŽš"@),
{
    reveal_strlit("]`^@)&\":'*=<{;}(~>\\|[");
    reveal_strlit("đ<&\"='ĆČć(*;ŠčĐ)>:žŽš");
    reveal_with_fuel(all_distinct, 40);
    reveal_with_fuel(differs_from_all, 40);
    reveal_with_fuel(all_ascii_graphic, 40);
}

proof fn lemma_table_49()
    ensures
        table_well_formed("@=<^|`>){'&\"}]~[/:*\\(;"@, "\"`;&*<:=Ö¨/ˆÄä>ö´Å(@)å"@),
{
    reveal_strlit("@=<^|`>){'&\"}]~[/:*\\(;");
    reveal_strlit("\"`;&*<:=Ö¨/ˆÄä>ö´Å(@)å");
    reveal_with_fuel(all_distinct, 40);
    reveal_with_fuel(differs_from_all, 40);
    reveal_with_fuel(all_ascii_graphic, 40);
}

proof fn lemma_table_50()
    ensures
        table_well_formed("={#:\\}!(+]/<\";$'`*[>&^~@)|"@, "¨é*è$à+)!ä';`üç^<(ö:/&>\"=£"@),
{
    reveal_strlit("={#:\\}!(+]/<\";$'`*[>&^~@)|");
    reveal_strlit("¨é*è$à+)!ä';`üç^<(ö:/&>\"=£");
    reveal_with_fuel(all_distinct, 40);
    reveal_with_fuel(differs_from_all, 40);
    reveal_with_fuel(all_ascii_graphic, 40);
}

proof fn lemma_table_51()
    ensures
        table_well_formed("'"@, "ʻ"@),
{
    reveal_strlit("'");
    reveal_strlit("ʻ");
    reveal_with_fuel(all_distinct, 40);
    reveal_with_fuel(differs_from_all, 40);
    reveal_with_fuel(all_ascii_graphic, 40);
}

proof fn lemma_table_52()
    ensures
        table_well_formed(":/[<{X\"wQx\\(;~>W}`*@])'^|=q&"@, "Å´ø;ØČŊšÁčđ)åŽ:ŠÆž(\"æ=ŋ&Đ`á/"@),
{
    reveal_strlit(":/[<{X\"wQx\\(;~>W}`*@])'^|=q&");
    reveal_strlit("Å´ø;ØČŊšÁčđ)åŽ:ŠÆž(\"æ=ŋ&Đ`á/");
    reveal_with_fuel(all_distinct, 40);
    reveal_with_fuel(differs_from_all, 40);
    reveal_with_fuel(all_ascii_graphic, 40);
}

proof fn lemma_table_53()
    ensures
        table_well_formed("^~"@, "ˆ˜"@),
{
    reveal_strlit("^~");
    reveal_strlit("ˆ˜");
    reveal_with_fuel(all_distinct, 40);
    reveal_with_fuel(differs_from_all, 40);
    reveal_with_fuel(all_ascii_graphic, 40);
}

proof fn lemma_table_54()
    ensures
        table_well_formed("^~"@, "ˆ˜"@),
{
    reveal_strlit("^~");
    reveal_strlit("ˆ˜");
    reveal_with_fuel(all_distinct, 40);
    reveal_with_fuel(differs_from_all, 40);
    reveal_with_fuel(all_ascii_graphic, 40);
}

proof fn lemma_table_55()
    ensures
        table_well_formed("`'~\"\\*|=/@)[:}&><]{(^;"@, "<¨>^@(*`´\"=øÅÆ/:;æØ)&å"@),
{
    reveal_strlit("`'~\"\\*|=/@)[:}&><]{(^;");
    reveal_strlit("<¨>^@(*`´\"=øÅÆ/:;æØ)&å");
    reveal_with_fuel(all_distinct, 40);
    reveal_with_fuel(differs_from_all, 40);
    reveal_with_fuel(all_ascii_graphic, 40);
}

proof fn lemma_table_56()
    ensures
        table_well_formed("\"}~<`>'&#:{@*^|\\)=(]/;["@, "`Ä>;<:´/§ÜÖ\"(&'#=*)äßüö"@),
{
    reveal_strlit("\"}~<`>'&#:{@*^|\\)=(]/;[");
    reveal_strlit("`Ä>;<:´/§ÜÖ\"(&'#=*)äßüö");
    reveal_with_fuel(all_distinct, 40);
    reveal_with_fuel(differs_from_all, 40);
    reveal_with_fuel(all_ascii_graphic, 40);
}

proof fn lemma_table_57()
    ensures
        table_well_formed(">[$61%@7|)&8\":}593(.4^<!{`2]\\#;~*/'0"@, "/^4§&52è£07!%°*(ç\"9;'6.1¨<é$`3)>8:ùà"@),
{
    reveal_strlit(">[$61%@7|)&8\":}593(.4^<!{`2]\\#;~*/'0");
    reveal_strlit("/^4§&52è£07!%°*(ç\"9;'6.1¨<é$`3)>8:ùà");
    reveal_with_fuel(all_distinct, 40);
    reveal_with_fuel(differs_from_all, 40);
    reveal_with_fuel(all_ascii_graphic, 40);
}

proof fn lemma_table_58()
    ensures
        table_well_formed("(7*#193620?/{)@~!$8+;:%4\">`^]&5}[<'"@, "9ý83+íšžěéˇ'Ú02`14á%ů\"5č!:¨6)7ř(ú?§"@),
{
    reveal_strlit("(7*#193620?/{)@~!$8+;:%4\">`^]&5}[<'");
    reveal_strlit("9ý83+íšžěéˇ'Ú02`14á%ů\"5č!:¨6)7ř(ú?§");
    reveal_with_fuel(all_distinct, 40);
    reveal_with_fuel(differs_from_all, 40);
    reveal_with_fuel(all_ascii_graphic, 40);
}

proof fn lemma_table_59()
    ensures
        table_well_formed("^~"@, "ˆ˜"@),
{
    reveal_strlit("^~");
    reveal_strlit("ˆ˜");
    reveal_with_fuel(all_distinct, 40);
    reveal_with_fuel(differs_from_all, 40);
    reveal_with_fuel(all_ascii_graphic, 40);
}

/// The table of every layout is well formed: its shortcut characters are
/// distinct printable ASCII characters, and neither string is empty.
pub proof fn lemma_tables_well_formed(layout: Seq<char>)
    ensures
        layout_table(layout) matches Some((from, to)) ==> table_well_formed(from, to),
{
    lemma_table_1();
    lemma_table_2();
    lemma_table_3();
    lemma_table_4();
    lemma_table_5();
    lemma_table_6();
    lemma_table_7();
    lemma_table_8();
    lemma_table_9();
    lemma_table_10();
    lemma_table_11();
    lemma_table_12();
    lemma_table_13();
    lemma_table_14();
    lemma_table_15();
    lemma_table_16();
    lemma_table_17();
    lemma_table_18();
    lemma_table_19();
    lemma_table_20();
    lemma_table_21();
    lemma_table_22();
    lemma_table_23();
    lemma_table_24();
    lemma_table_25();
    lemma_table_26();
    lemma_table_27();
    lemma_table_28();
    lemma_table_29();
    lemma_table_30();
    lemma_table_31();
    lemma_table_32();
    lemma_table_33();
    lemma_table_34();
    lemma_table_35();
    lemma_table_36();
    lemma_table_37();
    lemma_table_38();
    lemma_table_39();
    lemma_table_40();
    lemma_table_41();
    lemma_table_42();
    lemma_table_43();
    lemma_table_44();
    lemma_table_45();
    lemma_table_46();
    lemma_table_47();
    lemma_table_48();
    lemma_table_49();
    lemma_table_50();
    lemma_table_51();
    lemma_table_52();
    lemma_table_53();
    lemma_table_54();
    lemma_table_55();
    lemma_table_56();
    lemma_table_57();
    lemma_table_58();
    lemma_table_59();
}

/// No character occurs twice among the shortcut characters of a layout's table.
pub proof fn lemma_shortcut_chars_distinct(layout: Seq<char>)
    ensures
        layout_table(layout) matches Some((from, to)) ==> all_distinct(from),
{
    lemma_tables_well_formed(layout);
}

proof fn lemma_differs_from_all(c: char, s: Seq<char>, j: int)
    requires
        differs_from_all(c, s),
        0 <= j < s.len(),
    ensures
        s[j] != c,
    decreases s.len(),
{
    reveal_with_fuel(differs_from_all, 1);
    if j > 0 {
        lemma_differs_from_all(c, s.drop_first(), j - 1);
    }
}

/// In a sequence without repeats, different positions hold different characters.
pub proof fn lemma_all_distinct_positions(s: Seq<char>, i: int, j: int)
    requires
        all_distinct(s),
        0 <= i < j < s.len(),
    ensures
        s[i] != s[j],
    decreases s.len(),
{
    reveal_with_fuel(all_distinct, 1);
    if i == 0 {
        lemma_differs_from_all(s[0], s.drop_first(), j - 1);
    } else {
        lemma_all_distinct_positions(s.drop_first(), i - 1, j - 1);
    }
}

/// On every layout that has a table, each shortcut character is typed as the
/// character at the same position of the table's second string.
pub proof fn lemma_equivalent_at_same_position(layout: Seq<char>, i: int)
    requires
        layout_table(layout) matches Some((from, to)) && 0 <= i < zip_chars(from, to).len(),
    ensures
        layout_table(layout) matches Some((from, to)) && {
            &&& pairs_to_map(zip_chars(from, to)).contains_key(from[i])
            &&& pairs_to_map(zip_chars(from, to))[from[i]] == to[i]
        },
{
    let (from, to) = layout_table(layout).unwrap();
    let pairs = zip_chars(from, to);
    lemma_shortcut_chars_distinct(layout);
    assert forall|j: int| i < j < pairs.len() implies pairs[j].0 != pairs[i].0 by {
        lemma_all_distinct_positions(from, i, j);
    }
    lemma_last_pair_wins(pairs, i);
}

proof fn lemma_all_ascii_graphic_at(s: Seq<char>, i: int)
    requires
        all_ascii_graphic(s),
        0 <= i < s.len(),
    ensures
        is_ascii_graphic(s[i]),
    decreases s.len(),
{
    reveal_with_fuel(all_ascii_graphic, 1);
    if i > 0 {
        lemma_all_ascii_graphic_at(s.drop_first(), i - 1);
    }
}

/// Every layout that has a table moves at least one shortcut character (the
/// first of its table), and it moves only printable ASCII characters other
/// than space.
pub proof fn lemma_equivalents_nonempty_ascii_keys(layout: Seq<char>, c: char)
    requires
        layout_table(layout) is Some,
    ensures
        layout_table(layout) matches Some((from, to)) && {
            &&& pairs_to_map(zip_chars(from, to)).contains_key(from[0])
            &&& pairs_to_map(zip_chars(from, to)).contains_key(c) ==> is_ascii_graphic(c)
        },
{
    let (from, to) = layout_table(layout).unwrap();
    let pairs = zip_chars(from, to);
    lemma_tables_well_formed(layout);
    lemma_equivalent_at_same_position(layout, 0);
    lemma_keys_of_pairs(pairs, c);
    if pairs_to_map(pairs).contains_key(c) {
        let i = choose|i: int| 0 <= i < pairs.len() && #[trigger] pairs[i].0 == c;
        lemma_all_ascii_graphic_at(from, i);
    }
}

/// A pair is found in the map built from `pairs` when no later pair has its key.
pub proof fn lemma_last_pair_wins(pairs: Seq<(char, char)>, i: int)
    requires
        0 <= i < pairs.len(),
        forall|j: int| i < j < pairs.len() ==> pairs[j].0 != pairs[i].0,
    ensures
        pairs_to_map(pairs).contains_key(pairs[i].0),
        pairs_to_map(pairs)[pairs[i].0] == pairs[i].1,
{
    lemma_lookup_in_prefix(pairs, i + 1, pairs[i].0);
    assert(pairs.take(i + 1).drop_last() =~= pairs.take(i));
}

/// The keys of the map built from `pairs` are exactly the first components of the pairs.
pub proof fn lemma_keys_of_pairs(pairs: Seq<(char, char)>, c: char)
    ensures
        pairs_to_map(pairs).contains_key(c) <==> exists|i: int|
            0 <= i < pairs.len() && #[trigger] pairs[i].0 == c,
    decreases pairs.len(),
{
    if pairs.len() > 0 {
        let n = pairs.len() - 1;
        lemma_keys_of_pairs(pairs.drop_last(), c);
        if pairs_to_map(pairs.drop_last()).contains_key(c) {
            let i = choose|i: int| 0 <= i < pairs.drop_last().len() && #[trigger] pairs.drop_last()[i].0 == c;
            assert(pairs[i].0 == c);
        }
        if exists|i: int| 0 <= i < pairs.len() && #[trigger] pairs[i].0 == c {
            let i = choose|i: int| 0 <= i < pairs.len() && #[trigger] pairs[i].0 == c;
            if i < n {
                assert(pairs.drop_last()[i].0 == c);
            }
        }
    }
}

/// The shortcut equivalents of one keyboard layout, as a map from shortcut
/// character to the character typed in its place.
///
/// The pairs are kept in insertion order and looked up from the end, which is
/// what inserting them into a hash map gives. vstd's specification of
/// `HashMap` holds only for key types that obey its key model, and `char` is
/// not among them, so a `HashMap<char, char>` here would carry no contract;
/// `pairs` hands the pairs to callers that want one.
pub struct KeyEquivalents {
    pairs: Vec<(char, char)>,
}

impl View for KeyEquivalents {
    type V = Map<char, char>;

    closed spec fn view(&self) -> Map<char, char> {
        pairs_to_map(self.pairs@)
    }
}

impl KeyEquivalents {
    /// The pairs in the order they were inserted.
    pub closed spec fn pair_seq(&self) -> Seq<(char, char)> {
        self.pairs@
    }

    /// The map is the one that inserting the pairs in order builds.
    pub proof fn lemma_view_from_pairs(&self)
        ensures
            self@ == pairs_to_map(self.pair_seq()),
    {
    }

    /// The pairs in the order they were inserted; a later pair overrides an
    /// earlier one with the same key.
    pub fn pairs(&self) -> (r: &Vec<(char, char)>)
        ensures
            r@ == self.pair_seq(),
    {
        &self.pairs
    }

    /// The character that `c` is typed as, if the layout moves it.
    pub fn get(&self, c: char) -> (r: Option<char>)
        ensures
            r == (if self@.contains_key(c) {
                Some(self@[c])
            } else {
                None
            }),
    {
        let n = self.pairs.len();
        let mut i = n;
        while i > 0
            invariant
                i <= n,
                n == self.pairs@.len(),
                forall|j: int| i <= j < n ==> self.pairs@[j].0 != c,
            decreases i,
        {
            let (k, v) = self.pairs[i - 1];
            if k == c {
                proof {
                    lemma_lookup_in_prefix(self.pairs@, i as int, c);
                    assert(self.pairs@.take(i as int).drop_last() =~= self.pairs@.take(i - 1));
                }
                return Some(v);
            }
            i = i - 1;
        }
        proof {
            lemma_lookup_in_prefix(self.pairs@, 0, c);
            assert(self.pairs@.take(0) =~= Seq::<(char, char)>::empty());
        }
        None
    }
}

/// Pair `from` and `to` position by position, up to the shorter of the two.
fn zip_str(from: &str, to: &str) -> (r: Vec<(char, char)>)
    ensures
        r@ == zip_chars(from@, to@),
{
    let nf = from.unicode_len();
    let nt = to.unicode_len();
    let n = if nf <= nt { nf } else { nt };
    let mut r: Vec<(char, char)> = Vec::new();
    let mut i: usize = 0;
    while i < n
        invariant
            i <= n,
            n <= from@.len(),
            n <= to@.len(),
            n == zip_chars(from@, to@).len(),
            r@ =~= zip_chars(from@, to@).take(i as int),
        decreases n - i,
    {
        r.push((from.get_char(i), to.get_char(i)));
        i = i + 1;
    }
    r
}

/// The shortcut equivalents of the macOS keyboard layout named `layout`, or
/// `None` for a layout whose shortcuts can all be typed as they are.
pub fn get_key_equivalents(layout: &str) -> (r: Option<KeyEquivalents>)
    ensures
        match layout_table(layout@) {
            Some((from, to)) => r is Some && r->0.pair_seq() == zip_chars(from, to),
            None => r is None,
        },
{
    match layout_table_exec(layout) {
        Some((from, to)) => Some(KeyEquivalents { pairs: zip_str(from, to) }),
        None => None,
    }
}

} // verus!
